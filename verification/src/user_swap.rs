use vstd::prelude::*;
use crate::asset::Asset;
use crate::chain::multiply_ratio;
use crate::error::{ContractError, Overflow, OverflowOperation, SkipError};
use crate::response::{
    action,
    attr_amount,
    attr_string,
    attr_views,
    decimal_text,
    Attribute,
    Call,
    Msg,
    Response,
};
use crate::swap::{
    spec_validate_swap_operations,
    validate_swap_operations,
    Affiliate,
    Route,
    Swap,
    SwapExactAssetOut,
};

verus! {

/// The fee of an affiliate: `basis_points_fee` ten-thousandths of `amount`, rounded down.
#[verifier::opaque]
pub open spec fn fee_of(amount: u128, basis_points_fee: u128) -> int {
    amount * basis_points_fee / 10000
}

/// The total fee of the affiliates.
pub open spec fn fees_total(amount: u128, affs: Seq<Affiliate>) -> int
    decreases affs.len(),
{
    if affs.len() == 0 {
        0
    } else {
        fees_total(amount, affs.drop_last()) + fee_of(amount, affs.last().basis_points_fee)
    }
}

/// The first failure while charging the affiliates in order: an address that the chain
/// refused, or a fee that takes the running total above `u128::MAX`.
pub open spec fn affiliates_error(
    amount: u128,
    affs: Seq<Affiliate>,
    checks: Seq<Result<(), ContractError>>,
) -> Option<ContractError>
    decreases affs.len(),
{
    if affs.len() == 0 {
        None
    } else {
        let n = affs.len() - 1;
        let prev = affiliates_error(amount, affs.drop_last(), checks.take(n));
        let fee = fee_of(amount, affs[n].basis_points_fee);
        if prev is Some {
            prev
        } else if checks[n] is Err {
            Some(checks[n]->Err_0)
        } else if fee > 0 && fees_total(amount, affs) > u128::MAX {
            Some(
                ContractError::Overflow(
                    Overflow {
                        operation: OverflowOperation::Add,
                        operand1: fees_total(amount, affs.drop_last()) as u128,
                        operand2: fee as u128,
                    },
                ),
            )
        } else {
            None
        }
    }
}

/// Every fee that charging the affiliates computes fits in a `u128` (the computation
/// panics otherwise).
#[verifier::opaque]
pub open spec fn affiliate_fees_fit(
    amount: u128,
    affs: Seq<Affiliate>,
    checks: Seq<Result<(), ContractError>>,
) -> bool {
    forall|i: int|
        0 <= i < affs.len() && affiliates_error(amount, affs.take(i), checks.take(i)) is None
            && checks[i] is Ok ==> fee_of(amount, #[trigger] affs[i].basis_points_fee)
            <= u128::MAX
}

/// The transfers that pay the affiliates: one for each non-zero fee, in the denomination of
/// the minimum asset, a token when the chain accepts that denomination as an address.
pub open spec fn affiliate_msgs(min_asset: Asset, denom_is_address: bool, affs: Seq<Affiliate>) -> Seq<
    Msg,
>
    decreases affs.len(),
{
    if affs.len() == 0 {
        seq![]
    } else {
        let fee = fee_of(min_asset.amount_of(), affs.last().basis_points_fee);
        affiliate_msgs(min_asset, denom_is_address, affs.drop_last()) + if fee > 0 {
            seq![
                Msg::Transfer {
                    asset: Asset::from_parts(min_asset.denom_string(), denom_is_address, fee as u128),
                    recipient: affs.last().address,
                },
            ]
        } else {
            seq![]
        }
    }
}

/// The attributes of the affiliate payments.
pub open spec fn affiliate_attrs(amount: u128, affs: Seq<Affiliate>) -> Seq<(Seq<char>, Seq<char>)>
    decreases affs.len(),
{
    if affs.len() == 0 {
        seq![]
    } else {
        let fee = fee_of(amount, affs.last().basis_points_fee);
        affiliate_attrs(amount, affs.drop_last()) + if fee > 0 {
            seq![
                ("action"@, "dispatch_affiliate_fee_bank_send"@),
                ("address"@, affs.last().address@),
                ("amount"@, decimal_text(fee as nat)),
            ]
        } else {
            seq![]
        }
    }
}

proof fn lemma_fee_nonneg(amount: u128, bps: u128)
    ensures
        fee_of(amount, bps) >= 0,
{
    reveal(fee_of);
    assert(amount * bps >= 0) by (nonlinear_arith);
}

proof fn lemma_fees_total_nonneg(amount: u128, affs: Seq<Affiliate>)
    ensures
        fees_total(amount, affs) >= 0,
    decreases affs.len(),
{
    if affs.len() > 0 {
        lemma_fees_total_nonneg(amount, affs.drop_last());
        lemma_fee_nonneg(amount, affs.last().basis_points_fee);
    }
}

/// The first failure of a prefix is the first failure of the whole list.
proof fn lemma_affiliates_error_prefix(
    amount: u128,
    affs: Seq<Affiliate>,
    checks: Seq<Result<(), ContractError>>,
    i: int,
)
    requires
        0 <= i <= affs.len(),
        affs.len() <= checks.len(),
        affiliates_error(amount, affs.take(i), checks.take(i)) is Some,
    ensures
        affiliates_error(amount, affs, checks) == affiliates_error(
            amount,
            affs.take(i),
            checks.take(i),
        ),
    decreases affs.len() - i,
{
    if i < affs.len() {
        assert(affs.take(i + 1).drop_last() =~= affs.take(i));
        assert(checks.take(i + 1).take(i) =~= checks.take(i));
        lemma_affiliates_error_prefix(amount, affs, checks, i + 1);
    } else {
        assert(affs.take(i) =~= affs);
        lemma_affiliates_error_only_prefix(amount, affs, checks, checks.take(i));
    }
}

/// Only the checks of the listed affiliates matter.
proof fn lemma_affiliates_error_only_prefix(
    amount: u128,
    affs: Seq<Affiliate>,
    c1: Seq<Result<(), ContractError>>,
    c2: Seq<Result<(), ContractError>>,
)
    requires
        affs.len() <= c1.len(),
        affs.len() <= c2.len(),
        forall|j: int| 0 <= j < affs.len() ==> c1[j] == c2[j],
    ensures
        affiliates_error(amount, affs, c1) == affiliates_error(amount, affs, c2),
    decreases affs.len(),
{
    if affs.len() > 0 {
        let n = affs.len() - 1;
        lemma_affiliates_error_only_prefix(amount, affs.drop_last(), c1.take(n), c2.take(n));
    }
}

/// One more affiliate: how the totals, payments, attributes and failures of the first
/// `i + 1` affiliates follow from those of the first `i`.
proof fn lemma_affiliates_step(
    min_asset: Asset,
    denom_is_address: bool,
    affs: Seq<Affiliate>,
    checks: Seq<Result<(), ContractError>>,
    i: int,
)
    requires
        0 <= i < affs.len(),
        affs.len() <= checks.len(),
    ensures
        ({
            let amount = min_asset.amount_of();
            let pre = affs.take(i);
            let next = affs.take(i + 1);
            let fee = fee_of(amount, affs[i].basis_points_fee);
            &&& fees_total(amount, next) == fees_total(amount, pre) + fee
            &&& affiliate_msgs(min_asset, denom_is_address, next) == affiliate_msgs(
                min_asset,
                denom_is_address,
                pre,
            ) + if fee > 0 {
                seq![
                    Msg::Transfer {
                        asset: Asset::from_parts(
                            min_asset.denom_string(),
                            denom_is_address,
                            fee as u128,
                        ),
                        recipient: affs[i].address,
                    },
                ]
            } else {
                seq![]
            }
            &&& affiliate_attrs(amount, next) == affiliate_attrs(amount, pre) + if fee > 0 {
                seq![
                    ("action"@, "dispatch_affiliate_fee_bank_send"@),
                    ("address"@, affs[i].address@),
                    ("amount"@, decimal_text(fee as nat)),
                ]
            } else {
                seq![]
            }
            &&& affiliates_error(amount, next, checks.take(i + 1)) == if affiliates_error(
                amount,
                pre,
                checks.take(i),
            ) is Some {
                affiliates_error(amount, pre, checks.take(i))
            } else if checks[i] is Err {
                Some(checks[i]->Err_0)
            } else if fee > 0 && fees_total(amount, next) > u128::MAX {
                Some(
                    ContractError::Overflow(
                        Overflow {
                            operation: OverflowOperation::Add,
                            operand1: fees_total(amount, pre) as u128,
                            operand2: fee as u128,
                        },
                    ),
                )
            } else {
                None
            }
        }),
{
    let next = affs.take(i + 1);
    assert(next.drop_last() =~= affs.take(i));
    assert(next.last() == affs[i]);
    assert(checks.take(i + 1).take(i) =~= checks.take(i));
    assert(checks.take(i + 1)[i] == checks[i]);
}

proof fn lemma_fee_fits(
    amount: u128,
    affs: Seq<Affiliate>,
    checks: Seq<Result<(), ContractError>>,
    i: int,
)
    requires
        affiliate_fees_fit(amount, affs, checks),
        0 <= i < affs.len(),
        affiliates_error(amount, affs.take(i), checks.take(i)) is None,
        checks[i] is Ok,
    ensures
        fee_of(amount, affs[i].basis_points_fee) <= u128::MAX,
{
    reveal(affiliate_fees_fit);
}

/// What checking an affiliate and computing its fee answers: see
/// `verify_and_calculate_affiliate_fee_amount`.
pub open spec fn affiliate_fee_post(
    min_asset: Asset,
    affiliate: Affiliate,
    address_check: Result<(), ContractError>,
    res: Result<u128, ContractError>,
) -> bool {
    &&& (match address_check {
            Err(e) => res == Err::<u128, ContractError>(e),
            Ok(()) => res == Ok::<u128, ContractError>(
                fee_of(min_asset.amount_of(), affiliate.basis_points_fee) as u128,
            ),
        })
}

/// Checks an affiliate's address and computes its fee on the minimum asset.
pub fn verify_and_calculate_affiliate_fee_amount(
    min_asset: &Asset,
    affiliate: &Affiliate,
    address_check: Result<(), ContractError>,
) -> (res: Result<u128, ContractError>)
    requires
        address_check is Ok ==> fee_of(min_asset.amount_of(), affiliate.basis_points_fee)
            <= u128::MAX,
    ensures
        affiliate_fee_post(*min_asset, *affiliate, address_check, res),
{
    if let Err(e) = address_check {
        return Err(e);
    }
    proof {
        reveal(fee_of);
    }
    Ok(multiply_ratio(min_asset.amount(), affiliate.basis_points_fee, 10000))
}

/// What charging the affiliates gives: the total fee, the payments and their attributes.
pub struct AffiliateFees {
    pub total: u128,
    pub messages: Vec<Msg>,
    pub attributes: Vec<Attribute>,
}

/// Charges the affiliates in order on the minimum asset.
pub fn charge_affiliates(
    min_asset: &Asset,
    min_denom_is_address: bool,
    affiliates: &Vec<Affiliate>,
    address_checks: Vec<Result<(), ContractError>>,
) -> (res: Result<AffiliateFees, ContractError>)
    requires
        address_checks@.len() == affiliates@.len(),
        affiliate_fees_fit(min_asset.amount_of(), affiliates@, address_checks@),
    ensures
        match affiliates_error(min_asset.amount_of(), affiliates@, address_checks@) {
            Some(e) => res == Err::<AffiliateFees, ContractError>(e),
            None => res matches Ok(f) && f.total == fees_total(min_asset.amount_of(), affiliates@)
                && f.messages@ == affiliate_msgs(*min_asset, min_denom_is_address, affiliates@)
                && attr_views(f.attributes@) == affiliate_attrs(
                min_asset.amount_of(),
                affiliates@,
            ),
        },
{
    let ghost amount = min_asset.amount_of();
    let ghost affs = affiliates@;
    let ghost checks0 = address_checks@;
    let checks = address_checks;
    let mut total: u128 = 0;
    let mut messages: Vec<Msg> = Vec::new();
    let mut attributes: Vec<Attribute> = Vec::new();
    let n = affiliates.len();
    let mut i: usize = 0;
    assert(affs.take(0) =~= Seq::<Affiliate>::empty());
    while i < n
        invariant
            i <= n,
            n == affs.len(),
            affs == affiliates@,
            checks@ == checks0,
            checks0 == address_checks@,
            checks0.len() == n,
            amount == min_asset.amount_of(),
            affiliate_fees_fit(amount, affs, checks0),
            affiliates_error(amount, affs.take(i as int), checks0.take(i as int)) is None,
            total == fees_total(amount, affs.take(i as int)),
            messages@ == affiliate_msgs(*min_asset, min_denom_is_address, affs.take(i as int)),
            attr_views(attributes@) == affiliate_attrs(amount, affs.take(i as int)),
        decreases n - i,
    {
        let ghost pre = affs.take(i as int);
        let ghost next = affs.take(i + 1);
        proof {
            lemma_affiliates_step(*min_asset, min_denom_is_address, affs, checks0, i as int);
        }
        if let Err(e) = &checks[i] {
            proof {
                assert(checks0[i as int] is Err);
                assert(affiliates_error(amount, next, checks0.take(i + 1)) == Some(
                    checks0[i as int]->Err_0,
                ));
                lemma_affiliates_error_prefix(amount, affs, checks0, i + 1);
            }
            return Err(e.clone());
        }
        proof {
            lemma_fee_fits(amount, affs, checks0, i as int);
            lemma_fee_nonneg(amount, affs[i as int].basis_points_fee);
        }
        let fee = match verify_and_calculate_affiliate_fee_amount(
            min_asset,
            &affiliates[i],
            Ok(()),
        ) {
            Ok(f) => f,
            Err(e) => {
                return Err(e);
            },
        };
        if fee > 0 {
            proof {
                lemma_fees_total_nonneg(amount, pre);
            }
            match total.checked_add(fee) {
                Some(t) => {
                    total = t;
                },
                None => {
                    proof {
                        assert(fee as int == fee_of(amount, affs[i as int].basis_points_fee));
                        assert(fees_total(amount, next) > u128::MAX);
                        assert(affiliates_error(amount, next, checks0.take(i + 1)) is Some);
                        lemma_affiliates_error_prefix(amount, affs, checks0, i + 1);
                    }
                    return Err(
                        ContractError::Overflow(
                            Overflow {
                                operation: OverflowOperation::Add,
                                operand1: total,
                                operand2: fee,
                            },
                        ),
                    );
                },
            }
            let fee_asset = Asset::new(min_asset.denom(), min_denom_is_address, fee);
            let ghost old_attrs = attr_views(attributes@);
            messages.push(Msg::Transfer { asset: fee_asset, recipient: affiliates[i].address.clone() });
            attributes.push(action("dispatch_affiliate_fee_bank_send"));
            attributes.push(attr_string("address", &affiliates[i].address));
            attributes.push(attr_amount("amount", fee));
            assert(attr_views(attributes@) =~= old_attrs + seq![
                ("action"@, "dispatch_affiliate_fee_bank_send"@),
                ("address"@, affs[i as int].address@),
                ("amount"@, decimal_text(fee as nat)),
            ]);
        } else {
            assert(messages@ =~= affiliate_msgs(*min_asset, min_denom_is_address, next));
            assert(attr_views(attributes@) =~= affiliate_attrs(amount, next));
        }
        i = i + 1;
    }
    assert(affs.take(n as int) =~= affs);
    assert(checks0.take(n as int) =~= checks0);
    Ok(AffiliateFees { total, messages, attributes })
}

} // verus!

verus! {

/// The attributes that open the answer of a user swap.
pub open spec fn user_swap_head(remaining_asset: Asset, min_asset: Asset) -> Seq<(Seq<char>, Seq<char>)> {
    seq![
        ("action"@, "execute_user_swap"@),
        ("denom_in"@, remaining_asset.denom_of()),
        ("denom_out"@, min_asset.denom_of()),
    ]
}

/// The first failure while dispatching the routes of a split swap in order: operations that
/// do not lead from `denom_in` to `denom_out`, or a venue that storage does not hold
/// (looked up for each route, after its operations are checked).
pub open spec fn routes_error(
    routes: Seq<Route>,
    denom_in: Seq<char>,
    denom_out: Seq<char>,
    adapter: Result<String, ContractError>,
) -> Option<ContractError>
    decreases routes.len(),
{
    if routes.len() == 0 {
        None
    } else {
        let prev = routes_error(routes.drop_last(), denom_in, denom_out, adapter);
        let check = spec_validate_swap_operations(routes.last().operations@, denom_in, denom_out);
        if prev is Some {
            prev
        } else if check is Err {
            Some(ContractError::Skip(check->Err_0))
        } else if adapter is Err {
            Some(adapter->Err_0)
        } else {
            None
        }
    }
}

/// The calls of the swap adapter, one for each route, each with the asset that the route
/// offers.
pub open spec fn route_msgs(routes: Seq<Route>, adapter: String) -> Seq<Msg> {
    routes.map_values(
        |r: Route|
            Msg::SendWithCall {
                asset: r.offer_asset,
                contract: adapter,
                call: Call::AdapterSwap { operations: r.operations },
            },
    )
}

/// What a user swap asks of the adapter before it can finish a swap for an exact amount
/// out: how much of the asset in buys `asset_out` through the operations of `swap`.
pub struct PendingExactOut {
    /// The answer so far: the opening attributes, no messages.
    pub response: Response,
    /// The affiliate fees, which the answer ends with.
    pub fees: AffiliateFees,
    /// The swap adapter of the venue.
    pub adapter: String,
    pub swap: SwapExactAssetOut,
    /// The minimum asset plus the affiliate fees.
    pub asset_out: Asset,
    pub remaining_asset: Asset,
}

/// Where a user swap stands: answered, or waiting for the adapter's quote.
pub enum UserSwapStep {
    Done(Response),
    NeedsAssetIn(PendingExactOut),
}

/// Dispatches the routes of a split swap.
fn dispatch_routes(
    routes: Vec<Route>,
    denom_in: &String,
    denom_out: &String,
    adapter: Result<String, ContractError>,
) -> (res: Result<(Vec<Msg>, Vec<Attribute>), ContractError>)
    ensures
        match routes_error(routes@, denom_in@, denom_out@, adapter) {
            Some(e) => res == Err::<(Vec<Msg>, Vec<Attribute>), ContractError>(e),
            None => res matches Ok((msgs, attrs)) && (routes@.len() > 0 ==> msgs@ == route_msgs(
                routes@,
                adapter->Ok_0,
            )) && msgs@.len() == routes@.len() && attr_views(attrs@) == Seq::new(
                routes@.len(),
                |i: int| ("action"@, "dispatch_user_swap_exact_asset_in"@),
            ),
        },
{
    let ghost orig = routes@;
    let n = routes.len();
    let mut rest = routes;
    let mut msgs: Vec<Msg> = Vec::new();
    let mut attrs: Vec<Attribute> = Vec::new();
    let mut k: usize = 0;
    while k < n
        invariant
            k <= n,
            n == orig.len(),
            rest@ == orig.subrange(k as int, n as int),
            orig == routes@,
            routes_error(orig.take(k as int), denom_in@, denom_out@, adapter) is None,
            msgs@.len() == k,
            k > 0 ==> adapter is Ok,
            k > 0 ==> msgs@ == route_msgs(orig.take(k as int), adapter->Ok_0),
            attr_views(attrs@) == Seq::new(
                k as nat,
                |i: int| ("action"@, "dispatch_user_swap_exact_asset_in"@),
            ),
        decreases n - k,
    {
        assert(orig.take(k + 1).drop_last() =~= orig.take(k as int));
        assert(orig.take(k + 1).last() == orig[k as int]);
        assert(rest@[0] == orig[k as int]);
        let route = rest.remove(0);
        assert(rest@ =~= orig.subrange(k + 1, n as int));
        if let Err(e) = validate_swap_operations(&route.operations, denom_in, denom_out) {
            proof {
                lemma_routes_error_prefix(orig, denom_in@, denom_out@, adapter, k + 1);
            }
            return Err(ContractError::Skip(e));
        }
        let contract = match &adapter {
            Ok(a) => a.clone(),
            Err(e) => {
                proof {
                    lemma_routes_error_prefix(orig, denom_in@, denom_out@, adapter, k + 1);
                }
                return Err(e.clone());
            },
        };
        msgs.push(
            Msg::SendWithCall {
                asset: route.offer_asset,
                contract,
                call: Call::AdapterSwap { operations: route.operations },
            },
        );
        let ghost old_vec = attrs@;
        attrs.push(action("dispatch_user_swap_exact_asset_in"));
        assert(attr_views(attrs@) =~= attr_views(old_vec).push(
            ("action"@, "dispatch_user_swap_exact_asset_in"@),
        ));
        assert(attr_views(attrs@) =~= Seq::new(
            (k + 1) as nat,
            |i: int| ("action"@, "dispatch_user_swap_exact_asset_in"@),
        ));
        assert(msgs@ =~= route_msgs(orig.take(k + 1), adapter->Ok_0));
        k = k + 1;
    }
    assert(orig.take(n as int) =~= orig);
    Ok((msgs, attrs))
}

/// The first failure of a prefix of the routes is the first failure of all of them.
proof fn lemma_routes_error_prefix(
    routes: Seq<Route>,
    denom_in: Seq<char>,
    denom_out: Seq<char>,
    adapter: Result<String, ContractError>,
    i: int,
)
    requires
        0 <= i <= routes.len(),
        routes_error(routes.take(i), denom_in, denom_out, adapter) is Some,
    ensures
        routes_error(routes, denom_in, denom_out, adapter) == routes_error(
            routes.take(i),
            denom_in,
            denom_out,
            adapter,
        ),
    decreases routes.len() - i,
{
    if i < routes.len() {
        assert(routes.take(i + 1).drop_last() =~= routes.take(i));
        lemma_routes_error_prefix(routes, denom_in, denom_out, adapter, i + 1);
    } else {
        assert(routes.take(i) =~= routes);
    }
}

} // verus!

verus! {

/// The opening attributes of a user swap.
fn user_swap_head_attrs(remaining_asset: &Asset, min_asset: &Asset) -> (res: Vec<Attribute>)
    ensures
        attr_views(res@) == user_swap_head(*remaining_asset, *min_asset),
{
    let mut attrs: Vec<Attribute> = Vec::new();
    attrs.push(action("execute_user_swap"));
    attrs.push(attr_string("denom_in", remaining_asset.denom()));
    attrs.push(attr_string("denom_out", min_asset.denom()));
    assert(attr_views(attrs@) =~= user_swap_head(*remaining_asset, *min_asset));
    attrs
}

/// Dispatches the user's swap; only the contract itself may call it. Charges the
/// affiliates on the minimum asset first, then calls the venue's swap adapter (`adapter`,
/// read from storage for the venue's name) with the remaining asset, or with each route's
/// share of a split swap. A swap for an exact amount out first needs the adapter's quote of
/// the asset in: that step comes back as `NeedsAssetIn`, to be finished by
/// `finish_user_swap_exact_out`. The affiliate payments come last in the answer.
pub fn execute_user_swap(
    sender: &String,
    contract_address: &String,
    swap: Swap,
    min_asset: Asset,
    remaining_asset: Asset,
    affiliates: Vec<Affiliate>,
    affiliate_checks: Vec<Result<(), ContractError>>,
    min_denom_is_address: bool,
    adapter: Result<String, ContractError>,
) -> (res: Result<UserSwapStep, ContractError>)
    requires
        affiliate_checks@.len() == affiliates@.len(),
        sender@ == contract_address@ ==> affiliate_fees_fit(
            min_asset.amount_of(),
            affiliates@,
            affiliate_checks@,
        ),
    ensures
        sender@ != contract_address@ ==> res == Err::<UserSwapStep, ContractError>(
            ContractError::Unauthorized,
        ),
        sender@ == contract_address@ ==> {
            let amount = min_asset.amount_of();
            let head = user_swap_head(remaining_asset, min_asset);
            let fee_msgs = affiliate_msgs(min_asset, min_denom_is_address, affiliates@);
            let fee_attrs = affiliate_attrs(amount, affiliates@);
            let total = fees_total(amount, affiliates@);
            match affiliates_error(amount, affiliates@, affiliate_checks@) {
                Some(e) => res == Err::<UserSwapStep, ContractError>(e),
                None => match swap {
                    Swap::SwapExactAssetIn(s) => {
                        let check = spec_validate_swap_operations(
                            s.operations@,
                            remaining_asset.denom_of(),
                            min_asset.denom_of(),
                        );
                        if check is Err {
                            res == Err::<UserSwapStep, ContractError>(
                                ContractError::Skip(check->Err_0),
                            )
                        } else if adapter is Err {
                            res == Err::<UserSwapStep, ContractError>(adapter->Err_0)
                        } else {
                            res matches Ok(UserSwapStep::Done(r)) && r.messages@ == seq![
                                Msg::SendWithCall {
                                    asset: remaining_asset,
                                    contract: adapter->Ok_0,
                                    call: Call::AdapterSwapExactIn(s),
                                },
                            ] + fee_msgs && attr_views(r.attributes@) == head + seq![
                                ("action"@, "dispatch_user_swap_exact_asset_in"@),
                            ] + fee_attrs
                        }
                    },
                    Swap::SwapExactAssetOut(s) => {
                        let check = spec_validate_swap_operations(
                            s.operations@,
                            remaining_asset.denom_of(),
                            min_asset.denom_of(),
                        );
                        if check is Err {
                            res == Err::<UserSwapStep, ContractError>(
                                ContractError::Skip(check->Err_0),
                            )
                        } else if adapter is Err {
                            res == Err::<UserSwapStep, ContractError>(adapter->Err_0)
                        } else if amount + total > u128::MAX {
                            res == Err::<UserSwapStep, ContractError>(
                                ContractError::Skip(
                                    SkipError::Overflow(
                                        Overflow {
                                            operation: OverflowOperation::Add,
                                            operand1: amount,
                                            operand2: total as u128,
                                        },
                                    ),
                                ),
                            )
                        } else {
                            res matches Ok(UserSwapStep::NeedsAssetIn(p)) && p.adapter
                                == adapter->Ok_0 && p.swap == s && p.asset_out
                                == min_asset.with_amount((amount + total) as u128)
                                && p.remaining_asset == remaining_asset
                                && p.response.messages@.len() == 0 && attr_views(
                                p.response.attributes@,
                            ) == head && p.fees.total == total && p.fees.messages@ == fee_msgs
                                && attr_views(p.fees.attributes@) == fee_attrs
                        }
                    },
                    Swap::SmartSwapExactAssetIn(s) => match routes_error(
                        s.routes@,
                        remaining_asset.denom_of(),
                        min_asset.denom_of(),
                        adapter,
                    ) {
                        Some(e) => res == Err::<UserSwapStep, ContractError>(e),
                        None => res matches Ok(UserSwapStep::Done(r)) && r.messages@ == (if s.routes@.len()
                            > 0 {
                            route_msgs(s.routes@, adapter->Ok_0)
                        } else {
                            seq![]
                        }) + fee_msgs && attr_views(r.attributes@) == head + Seq::new(
                            s.routes@.len(),
                            |i: int| ("action"@, "dispatch_user_swap_exact_asset_in"@),
                        ) + fee_attrs,
                    },
                },
            }
        },
{
    if *sender != *contract_address {
        return Err(ContractError::Unauthorized);
    }
    let head = user_swap_head_attrs(&remaining_asset, &min_asset);
    let mut fees = match charge_affiliates(
        &min_asset,
        min_denom_is_address,
        &affiliates,
        affiliate_checks,
    ) {
        Ok(f) => f,
        Err(e) => {
            return Err(e);
        },
    };
    match swap {
        Swap::SwapExactAssetIn(s) => {
            if let Err(e) = validate_swap_operations(
                &s.operations,
                remaining_asset.denom(),
                min_asset.denom(),
            ) {
                return Err(ContractError::Skip(e));
            }
            let contract = match adapter {
                Ok(a) => a,
                Err(e) => {
                    return Err(e);
                },
            };
            let mut response = Response { messages: Vec::new(), attributes: head };
            let ghost head_views = attr_views(response.attributes@);
            response.messages.push(
                Msg::SendWithCall {
                    asset: remaining_asset,
                    contract,
                    call: Call::AdapterSwapExactIn(s),
                },
            );
            response.attributes.push(action("dispatch_user_swap_exact_asset_in"));
            let ghost fee_attr_views = attr_views(fees.attributes@);
            response.messages.append(&mut fees.messages);
            response.attributes.append(&mut fees.attributes);
            assert(attr_views(response.attributes@) =~= head_views + seq![
                ("action"@, "dispatch_user_swap_exact_asset_in"@),
            ] + fee_attr_views);
            Ok(UserSwapStep::Done(response))
        },
        Swap::SwapExactAssetOut(s) => {
            if let Err(e) = validate_swap_operations(
                &s.operations,
                remaining_asset.denom(),
                min_asset.denom(),
            ) {
                return Err(ContractError::Skip(e));
            }
            let contract = match adapter {
                Ok(a) => a,
                Err(e) => {
                    return Err(e);
                },
            };
            let mut asset_out = min_asset;
            if let Err(e) = asset_out.add(fees.total) {
                return Err(ContractError::Skip(e));
            }
            Ok(
                UserSwapStep::NeedsAssetIn(
                    PendingExactOut {
                        response: Response { messages: Vec::new(), attributes: head },
                        fees,
                        adapter: contract,
                        swap: s,
                        asset_out,
                        remaining_asset,
                    },
                ),
            )
        },
        Swap::SmartSwapExactAssetIn(s) => {
            let ghost routes = s.routes@;
            let (mut msgs, mut attrs) = match dispatch_routes(
                s.routes,
                remaining_asset.denom(),
                min_asset.denom(),
                adapter,
            ) {
                Ok(x) => x,
                Err(e) => {
                    return Err(e);
                },
            };
            let mut response = Response { messages: Vec::new(), attributes: head };
            let ghost head_views = attr_views(response.attributes@);
            let ghost route_attr_views = attr_views(attrs@);
            let ghost fee_attr_views = attr_views(fees.attributes@);
            let ghost route_msg_seq = msgs@;
            response.messages.append(&mut msgs);
            response.messages.append(&mut fees.messages);
            response.attributes.append(&mut attrs);
            response.attributes.append(&mut fees.attributes);
            assert(response.messages@ =~= route_msg_seq + affiliate_msgs(
                min_asset,
                min_denom_is_address,
                affiliates@,
            ));
            assert(routes.len() == 0 ==> route_msg_seq =~= Seq::<Msg>::empty());
            assert(attr_views(response.attributes@) =~= head_views + route_attr_views
                + fee_attr_views);
            Ok(UserSwapStep::Done(response))
        },
    }
}

/// Finishes a user swap for an exact amount out, given the adapter's quote `asset_in` of
/// the asset in that buys the minimum asset plus the affiliate fees. What is left of the
/// remaining asset is refunded to the swap's refund address (`refund_check` is what the
/// chain said of that address); then the adapter is called with `asset_in`.
pub fn finish_user_swap_exact_out(
    pending: PendingExactOut,
    asset_in: Result<Asset, ContractError>,
    refund_check: Result<(), ContractError>,
) -> (res: Result<Response, ContractError>)
    ensures
        match asset_in {
            Err(e) => res == Err::<Response, ContractError>(e),
            Ok(a) => {
                let rem = pending.remaining_asset.amount_of();
                let refund = rem - a.amount_of();
                if a.denom_of() != pending.remaining_asset.denom_of() {
                    res == Err::<Response, ContractError>(ContractError::UserSwapAssetInDenomMismatch)
                } else if a.amount_of() > rem {
                    res == Err::<Response, ContractError>(
                        ContractError::Skip(
                            SkipError::Overflow(
                                Overflow {
                                    operation: OverflowOperation::Sub,
                                    operand1: rem,
                                    operand2: a.amount_of(),
                                },
                            ),
                        ),
                    )
                } else if refund > 0 && pending.swap.refund_address is None {
                    res == Err::<Response, ContractError>(ContractError::NoRefundAddress)
                } else if refund > 0 && refund_check is Err {
                    res == Err::<Response, ContractError>(refund_check->Err_0)
                } else {
                    res matches Ok(r) && r.messages@ == pending.response.messages@ + (if refund > 0 {
                        seq![
                            Msg::Transfer {
                                asset: pending.remaining_asset.with_amount(refund as u128),
                                recipient: pending.swap.refund_address->Some_0,
                            },
                        ]
                    } else {
                        seq![]
                    }) + seq![
                        Msg::SendWithCall {
                            asset: a,
                            contract: pending.adapter,
                            call: Call::AdapterSwapExactOut(pending.swap),
                        },
                    ] + pending.fees.messages@ && attr_views(r.attributes@) == attr_views(
                        pending.response.attributes@,
                    ) + (if refund > 0 {
                        seq![
                            ("action"@, "dispatch_refund"@),
                            ("address"@, pending.swap.refund_address->Some_0@),
                            ("amount"@, decimal_text(refund as nat)),
                        ]
                    } else {
                        seq![]
                    }) + seq![("action"@, "dispatch_user_swap_exact_asset_out"@)] + attr_views(
                        pending.fees.attributes@,
                    )
                }
            },
        },
{
    let PendingExactOut { response, fees, adapter, swap, remaining_asset, .. } = pending;
    let mut response = response;
    let mut fees = fees;
    let mut remaining_asset = remaining_asset;
    let asset_in = match asset_in {
        Ok(a) => a,
        Err(e) => {
            return Err(e);
        },
    };
    if *asset_in.denom() != *remaining_asset.denom() {
        return Err(ContractError::UserSwapAssetInDenomMismatch);
    }
    if let Err(e) = remaining_asset.sub(asset_in.amount()) {
        return Err(ContractError::Skip(e));
    }
    let refund = remaining_asset.amount();
    if refund > 0 {
        let to_address = match &swap.refund_address {
            Some(a) => a.clone(),
            None => {
                return Err(ContractError::NoRefundAddress);
            },
        };
        if let Err(e) = refund_check {
            return Err(e);
        }
        response.attributes.push(action("dispatch_refund"));
        response.attributes.push(attr_string("address", &to_address));
        response.attributes.push(attr_amount("amount", refund));
        response.messages.push(Msg::Transfer { asset: remaining_asset, recipient: to_address });
    }
    response.messages.push(
        Msg::SendWithCall { asset: asset_in, contract: adapter, call: Call::AdapterSwapExactOut(swap) },
    );
    response.attributes.push(action("dispatch_user_swap_exact_asset_out"));
    let ghost attrs2 = attr_views(response.attributes@);
    let ghost fee_attrs = attr_views(fees.attributes@);
    response.messages.append(&mut fees.messages);
    response.attributes.append(&mut fees.attributes);
    assert(attr_views(response.attributes@) =~= attrs2 + fee_attrs);
    Ok(response)
}

} // verus!
