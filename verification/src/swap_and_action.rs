use vstd::prelude::*;
use crate::action::{Action, PostSwapAction};
use crate::asset::{one_coin, Asset, Coin, Cw20Coin};
use crate::error::{ContractError, Overflow, OverflowOperation, SkipError};
use crate::response::{action, attr_views, Call, Msg, Response};
use crate::swap::{
    adjusted_routes,
    match_routes_to_amount,
    routes_adjust_error,
    routes_total,
    spec_validate_swap_operations,
    validate_swap_operations,
    Affiliate,
    Swap,
    SwapExactAssetOut,
    SwapOperation,
};

verus! {

/// The asset that a CW20 contract sends along with a hook: `amount` of the token whose
/// contract (`sender`) calls.
pub fn receive_cw20(sender: &String, amount: u128) -> (res: Asset)
    ensures
        res == Asset::Cw20(Cw20Coin { address: *sender, amount }),
{
    Asset::Cw20(Cw20Coin { address: sender.clone(), amount })
}

/// The asset that a call is made with: the asset it names, when that asset passes its own
/// check against the call (`sent_asset_check`), else the single coin attached to it.
pub open spec fn sent_asset_result(
    sent_asset: Option<Asset>,
    sent_asset_check: Result<(), ContractError>,
    funds: Seq<Coin>,
) -> Result<Asset, ContractError> {
    match sent_asset {
        Some(a) => match sent_asset_check {
            Err(e) => Err(e),
            Ok(()) => Ok(a),
        },
        None => if funds.len() == 0 || (funds.len() == 1 && funds[0].amount == 0) {
            Err(ContractError::Payment(crate::error::PaymentError::NoFunds))
        } else if funds.len() > 1 {
            Err(ContractError::Payment(crate::error::PaymentError::MultipleDenoms))
        } else {
            Ok(Asset::Native(funds[0]))
        },
    }
}

/// Validates and unwraps the asset sent with a call.
pub fn unwrap_sent_asset(
    sent_asset: Option<Asset>,
    sent_asset_check: Result<(), ContractError>,
    funds: &Vec<Coin>,
) -> (res: Result<Asset, ContractError>)
    ensures
        res == sent_asset_result(sent_asset, sent_asset_check, funds@),
{
    match sent_asset {
        Some(a) => match sent_asset_check {
            Err(e) => Err(e),
            Ok(()) => Ok(a),
        },
        None => match one_coin(funds) {
            Ok(c) => Ok(Asset::Native(c)),
            Err(e) => Err(ContractError::Payment(e)),
        },
    }
}

/// Why the fee swap fails, if it does: operations that do not lead from the remaining
/// asset to the fee coin, an unknown venue, a failed quote, a quote in another
/// denomination, or a quote above the remaining amount.
pub open spec fn fee_swap_error(
    fee_swap: SwapExactAssetOut,
    remaining_asset: Asset,
    ibc_fee_coin: Coin,
    adapter: Result<String, ContractError>,
    asset_in: Result<Asset, ContractError>,
) -> Option<ContractError> {
    let check = spec_validate_swap_operations(
        fee_swap.operations@,
        remaining_asset.denom_of(),
        ibc_fee_coin.denom@,
    );
    if check is Err {
        Some(ContractError::Skip(check->Err_0))
    } else if adapter is Err {
        Some(adapter->Err_0)
    } else if asset_in is Err {
        Some(asset_in->Err_0)
    } else if asset_in->Ok_0.denom_of() != remaining_asset.denom_of() {
        Some(ContractError::FeeSwapAssetInDenomMismatch)
    } else if asset_in->Ok_0.amount_of() > remaining_asset.amount_of() {
        Some(
            ContractError::Skip(
                SkipError::Overflow(
                    Overflow {
                        operation: OverflowOperation::Sub,
                        operand1: remaining_asset.amount_of(),
                        operand2: asset_in->Ok_0.amount_of(),
                    },
                ),
            ),
        )
    } else {
        None
    }
}

/// Creates the swap that buys the IBC fee coin out of the remaining asset, and takes what it
/// costs off the remaining asset. `adapter` is the stored adapter of the fee swap's venue and
/// `asset_in` the adapter's quote of the asset in that buys `ibc_fee_coin` through the fee
/// swap's operations.
pub fn verify_and_create_fee_swap_msg(
    fee_swap: SwapExactAssetOut,
    remaining_asset: &mut Asset,
    ibc_fee_coin: &Coin,
    adapter: Result<String, ContractError>,
    asset_in: Result<Asset, ContractError>,
) -> (res: Result<Msg, ContractError>)
    ensures
        match fee_swap_error(fee_swap, *old(remaining_asset), *ibc_fee_coin, adapter, asset_in) {
            Some(e) => res == Err::<Msg, ContractError>(e) && *final(remaining_asset) == *old(
                remaining_asset,
            ),
            None => res == Ok::<Msg, ContractError>(
                Msg::SendWithCall {
                    asset: asset_in->Ok_0,
                    contract: adapter->Ok_0,
                    call: Call::AdapterSwapExactOut(fee_swap),
                },
            ) && *final(remaining_asset) == old(remaining_asset).with_amount(
                (old(remaining_asset).amount_of() - asset_in->Ok_0.amount_of()) as u128,
            ),
        },
{
    if let Err(e) = validate_swap_operations(
        &fee_swap.operations,
        remaining_asset.denom(),
        &ibc_fee_coin.denom,
    ) {
        return Err(ContractError::Skip(e));
    }
    let contract = match adapter {
        Ok(a) => a,
        Err(e) => {
            return Err(e);
        },
    };
    let asset_in = match asset_in {
        Ok(a) => a,
        Err(e) => {
            return Err(e);
        },
    };
    if *asset_in.denom() != *remaining_asset.denom() {
        return Err(ContractError::FeeSwapAssetInDenomMismatch);
    }
    if let Err(e) = remaining_asset.sub(asset_in.amount()) {
        return Err(ContractError::Skip(e));
    }
    Ok(
        Msg::SendWithCall {
            asset: asset_in,
            contract,
            call: Call::AdapterSwapExactOut(fee_swap),
        },
    )
}

/// The quote that the fee swap of an IBC transfer asks for, when it is asked: of the
/// adapter of the fee swap's venue, the asset in that buys the fee coin through the fee
/// swap's operations. It is asked only where the fees make one coin, the operations lead
/// from the remaining asset to that coin and the venue has an adapter.
pub open spec fn fee_swap_quote(
    post_swap_action: Action,
    remaining_asset: Asset,
    fee_swap_adapter: Result<String, ContractError>,
) -> Option<(String, Asset, Seq<SwapOperation>)> {
    match post_swap_action {
        Action::IbcTransfer { fee_coin: Some(Ok(c)), fee_swap: Some(fs), .. } => if
            spec_validate_swap_operations(fs.operations@, remaining_asset.denom_of(), c.denom@)
            is Ok && fee_swap_adapter is Ok {
            Some((fee_swap_adapter->Ok_0, Asset::Native(c), fs.operations@))
        } else {
            None
        },
        _ => None,
    }
}

/// What to ask the fee swap venue's adapter (`fee_swap_adapter`) for the fee swap of
/// `post_swap_action` out of `remaining_asset`: the adapter, the asset out and the
/// operations. The answer is what `execute_swap_and_action` takes as `fee_swap_asset_in`.
pub fn fee_swap_quote_request<'a>(
    post_swap_action: &'a Action,
    remaining_asset: &Asset,
    fee_swap_adapter: &Result<String, ContractError>,
) -> (res: Option<(String, Asset, &'a Vec<SwapOperation>)>)
    ensures
        match fee_swap_quote(*post_swap_action, *remaining_asset, *fee_swap_adapter) {
            None => res is None,
            Some((contract, asset_out, ops)) => res matches Some((c, a, o)) && c == contract
                && a == asset_out && o@ == ops,
        },
{
    match post_swap_action {
        Action::IbcTransfer { fee_coin: Some(Ok(c)), fee_swap: Some(fs), .. } => {
            if validate_swap_operations(&fs.operations, remaining_asset.denom(), &c.denom).is_err() {
                return None;
            }
            match fee_swap_adapter {
                Ok(contract) => Some((contract.clone(), Asset::Native(c.clone()), &fs.operations)),
                Err(_) => None,
            }
        },
        _ => None,
    }
}

} // verus!

verus! {

/// The coin of the IBC fees, when they make one.
pub open spec fn fee_coin_of(fee_coin: Option<Result<Coin, SkipError>>) -> Option<Coin> {
    match fee_coin {
        Some(Ok(c)) => Some(c),
        _ => None,
    }
}

/// How the IBC fees of the post swap action are paid out of the remaining asset: by a fee
/// swap, or by taking the fee coin off the remaining asset; then the fee coin is sent to
/// the stored IBC transfer adapter. Gives the remaining asset after that, the messages and
/// the attributes, or the failure.
pub open spec fn ibc_fee_stage(
    post_swap_action: Action,
    remaining: Asset,
    fee_swap_adapter: Result<String, ContractError>,
    fee_swap_asset_in: Result<Asset, ContractError>,
    ibc_transfer_adapter: Result<String, ContractError>,
) -> Result<(Asset, Seq<Msg>, Seq<(Seq<char>, Seq<char>)>), ContractError> {
    match post_swap_action {
        Action::IbcTransfer { fee_coin, fee_swap, .. } => if fee_coin matches Some(Err(e)) {
            Err(ContractError::Skip(fee_coin->Some_0->Err_0))
        } else {
            let fc = fee_coin_of(fee_coin);
            let stage: Result<(Asset, Seq<Msg>, Seq<(Seq<char>, Seq<char>)>), ContractError> =
                match fee_swap {
                Some(fs) => match fc {
                    None => Err(ContractError::FeeSwapWithoutIbcFees),
                    Some(c) => match fee_swap_error(
                        fs,
                        remaining,
                        c,
                        fee_swap_adapter,
                        fee_swap_asset_in,
                    ) {
                        Some(e) => Err(e),
                        None => Ok(
                            (
                                remaining.with_amount(
                                    (remaining.amount_of()
                                        - fee_swap_asset_in->Ok_0.amount_of()) as u128,
                                ),
                                seq![
                                    Msg::SendWithCall {
                                        asset: fee_swap_asset_in->Ok_0,
                                        contract: fee_swap_adapter->Ok_0,
                                        call: Call::AdapterSwapExactOut(fs),
                                    },
                                ],
                                seq![("action"@, "dispatch_fee_swap"@)],
                            ),
                        ),
                    },
                },
                None => match fc {
                    Some(c) => if remaining.denom_of() != c.denom@ {
                        Err(ContractError::IBCFeeDenomDiffersFromAssetReceived)
                    } else if c.amount > remaining.amount_of() {
                        Err(
                            ContractError::Skip(
                                SkipError::Overflow(
                                    Overflow {
                                        operation: OverflowOperation::Sub,
                                        operand1: remaining.amount_of(),
                                        operand2: c.amount,
                                    },
                                ),
                            ),
                        )
                    } else {
                        Ok(
                            (
                                remaining.with_amount((remaining.amount_of() - c.amount) as u128),
                                seq![],
                                seq![],
                            ),
                        )
                    },
                    None => Ok((remaining, seq![], seq![])),
                },
            };
            match stage {
                Err(e) => Err(e),
                Ok((r, m, a)) => match fc {
                    Some(c) => match ibc_transfer_adapter {
                        Err(e) => Err(e),
                        Ok(to) => Ok(
                            (
                                r,
                                m.push(Msg::BankSend { to_address: to, coin: c }),
                                a.push(("action"@, "dispatch_ibc_fee_bank_send"@)),
                            ),
                        ),
                    },
                    None => Ok((r, m, a)),
                },
            }
        },
        _ => Ok((remaining, seq![], seq![])),
    }
}

/// The user swap as dispatched: a split swap with its routes made to offer `amount`, any
/// other swap as it is.
pub open spec fn user_swap_adjusted(user_swap: Swap, dispatched: Swap, amount: u128) -> bool {
    match user_swap {
        Swap::SmartSwapExactAssetIn(s) => dispatched matches Swap::SmartSwapExactAssetIn(d)
            && d.swap_venue_name == s.swap_venue_name && d.routes@ == adjusted_routes(
            s.routes@,
            amount,
        ),
        _ => dispatched == user_swap,
    }
}

/// What the swap and action writes and answers.
pub struct SwapAndActionPlan {
    /// The contract's balance of the minimum asset's denomination before the swap, to store.
    pub pre_swap_out_asset_amount: u128,
    pub response: Response,
}

/// Pays the IBC fees of the post swap action, if any.
fn pay_ibc_fees(
    post_swap_action: Action,
    remaining: Asset,
    fee_swap_adapter: Result<String, ContractError>,
    fee_swap_asset_in: Result<Asset, ContractError>,
    ibc_transfer_adapter: Result<String, ContractError>,
) -> (res: Result<(Asset, Vec<Msg>, Vec<crate::response::Attribute>), ContractError>)
    ensures
        match ibc_fee_stage(
            post_swap_action,
            remaining,
            fee_swap_adapter,
            fee_swap_asset_in,
            ibc_transfer_adapter,
        ) {
            Err(e) => res == Err::<(Asset, Vec<Msg>, Vec<crate::response::Attribute>), ContractError>(
                e,
            ),
            Ok((r, m, a)) => res matches Ok((r2, m2, a2)) && r2 == r && m2@ == m && attr_views(a2@)
                == a,
        },
{
    let mut remaining = remaining;
    let mut msgs: Vec<Msg> = Vec::new();
    let mut attrs: Vec<crate::response::Attribute> = Vec::new();
    match post_swap_action {
        Action::IbcTransfer { fee_coin, fee_swap, .. } => {
            let fee_coin = match fee_coin {
                Some(Err(e)) => {
                    return Err(ContractError::Skip(e));
                },
                Some(Ok(c)) => Some(c),
                None => None,
            };
            match fee_swap {
                Some(fs) => {
                    let c = match &fee_coin {
                        Some(c) => c.clone(),
                        None => {
                            return Err(ContractError::FeeSwapWithoutIbcFees);
                        },
                    };
                    match verify_and_create_fee_swap_msg(
                        fs,
                        &mut remaining,
                        &c,
                        fee_swap_adapter,
                        fee_swap_asset_in,
                    ) {
                        Ok(m) => {
                            msgs.push(m);
                            attrs.push(action("dispatch_fee_swap"));
                        },
                        Err(e) => {
                            return Err(e);
                        },
                    }
                },
                None => {
                    if let Some(c) = &fee_coin {
                        if *remaining.denom() != c.denom {
                            return Err(ContractError::IBCFeeDenomDiffersFromAssetReceived);
                        }
                        if let Err(e) = remaining.sub(c.amount) {
                            return Err(ContractError::Skip(e));
                        }
                    }
                },
            }
            let ghost a0 = attr_views(attrs@);
            if let Some(c) = fee_coin {
                let to_address = match ibc_transfer_adapter {
                    Ok(a) => a,
                    Err(e) => {
                        return Err(e);
                    },
                };
                msgs.push(Msg::BankSend { to_address, coin: c });
                attrs.push(action("dispatch_ibc_fee_bank_send"));
                assert(attr_views(attrs@) =~= a0.push(("action"@, "dispatch_ibc_fee_bank_send"@)));
            }
            Ok((remaining, msgs, attrs))
        },
        _ => {
            assert(attr_views(attrs@) =~= Seq::<(Seq<char>, Seq<char>)>::empty());
            Ok((remaining, msgs, attrs))
        },
    }
}

/// Whether the swap and action gets as far as making a split swap's routes offer the
/// remaining asset: the asset sent is valid, the call is not past its timeout, the balance
/// before the swap was read and the IBC fees are paid. Only there are the routes summed.
pub fn reaches_route_adjustment(
    block_time_nanos: u64,
    timeout_timestamp: u64,
    sent_asset: Option<Asset>,
    sent_asset_check: Result<(), ContractError>,
    funds: &Vec<Coin>,
    post_swap_action: Action,
    min_asset_available: &Result<u128, ContractError>,
    fee_swap_adapter: Result<String, ContractError>,
    fee_swap_asset_in: Result<Asset, ContractError>,
    ibc_transfer_adapter: Result<String, ContractError>,
) -> (res: bool)
    ensures
        res == ({
            let sent = sent_asset_result(sent_asset, sent_asset_check, funds@);
            &&& sent is Ok
            &&& block_time_nanos <= timeout_timestamp
            &&& min_asset_available is Ok
            &&& ibc_fee_stage(
                post_swap_action,
                sent->Ok_0,
                fee_swap_adapter,
                fee_swap_asset_in,
                ibc_transfer_adapter,
            ) is Ok
        }),
{
    let sent = match unwrap_sent_asset(sent_asset, sent_asset_check, funds) {
        Ok(a) => a,
        Err(_) => {
            return false;
        },
    };
    if block_time_nanos > timeout_timestamp {
        return false;
    }
    if min_asset_available.is_err() {
        return false;
    }
    pay_ibc_fees(
        post_swap_action,
        sent,
        fee_swap_adapter,
        fee_swap_asset_in,
        ibc_transfer_adapter,
    ).is_ok()
}

/// What the swap and action answers, for each input: see `execute_swap_and_action`.
pub open spec fn swap_and_action_post(
    contract_address: String,
    block_time_nanos: u64,
    sent_asset: Option<Asset>,
    sent_asset_check: Result<(), ContractError>,
    funds: Seq<Coin>,
    user_swap: Swap,
    min_asset: Asset,
    timeout_timestamp: u64,
    post_swap_action: PostSwapAction,
    affiliates: Vec<Affiliate>,
    min_asset_available: Result<u128, ContractError>,
    fee_swap_adapter: Result<String, ContractError>,
    fee_swap_asset_in: Result<Asset, ContractError>,
    ibc_transfer_adapter: Result<String, ContractError>,
    res: Result<SwapAndActionPlan, ContractError>,
) -> bool {
    &&& (match sent_asset_result(sent_asset, sent_asset_check, funds) {
            Err(e) => res == Err::<SwapAndActionPlan, ContractError>(e),
            Ok(sent) => if block_time_nanos > timeout_timestamp {
                res == Err::<SwapAndActionPlan, ContractError>(ContractError::Timeout)
            } else {
                match min_asset_available {
                    Err(e) => res == Err::<SwapAndActionPlan, ContractError>(e),
                    Ok(pre) => match ibc_fee_stage(
                        post_swap_action.action,
                        sent,
                        fee_swap_adapter,
                        fee_swap_asset_in,
                        ibc_transfer_adapter,
                    ) {
                        Err(e) => res == Err::<SwapAndActionPlan, ContractError>(e),
                        Ok((rem, fee_msgs, fee_attrs)) => if user_swap matches Swap::SmartSwapExactAssetIn(
                            s,
                        ) && routes_adjust_error(s.routes@, rem.amount_of()) is Some {
                            res == Err::<SwapAndActionPlan, ContractError>(
                                routes_adjust_error(
                                    user_swap->SmartSwapExactAssetIn_0.routes@,
                                    rem.amount_of(),
                                )->Some_0,
                            )
                        } else {
                            res matches Ok(plan) && {
                                let msgs = plan.response.messages@;
                                let n = fee_msgs.len();
                                &&& plan.pre_swap_out_asset_amount == pre
                                &&& msgs.len() == n + 2
                                &&& msgs.take(n as int) =~= fee_msgs
                                &&& msgs[n as int] matches Msg::Execute {
                                    contract,
                                    call: Call::UserSwap { swap, min_asset: m, remaining_asset: r, affiliates: af },
                                    funds: f,
                                } && contract == contract_address && f@.len() == 0
                                    && user_swap_adjusted(user_swap, swap, rem.amount_of()) && m
                                    == min_asset && r == rem && af == affiliates
                                &&& msgs[n as int + 1] matches Msg::Execute {
                                    contract,
                                    call: Call::PostSwapAction {
                                        min_asset: m,
                                        timeout_timestamp: t,
                                        post_swap_action: pa,
                                        exact_out: x,
                                    },
                                    funds: f,
                                } && contract == contract_address && f@.len() == 0 && m
                                    == min_asset && t == timeout_timestamp && pa
                                    == post_swap_action.encoded && x == (user_swap is SwapExactAssetOut)
                                &&& attr_views(plan.response.attributes@) =~= seq![
                                    ("action"@, "execute_swap_and_action"@),
                                ] + fee_attrs + seq![
                                    ("action"@, "dispatch_user_swap"@),
                                    ("action"@, "dispatch_post_swap_action"@),
                                ]
                            }
                        },
                    },
                }
            },
        })
}

/// The main entry point: validates the asset sent, refuses a call past its timeout, stores
/// the contract's balance of the minimum asset's denomination before the swap
/// (`min_asset_available`), pays the IBC fees of an IBC transfer, makes the routes of a
/// split swap offer the remaining asset, then calls the contract itself (at
/// `contract_address`) for the user swap and for the post swap action.
///
/// `sent_asset_check` is the sent asset's own check against the call (its attached coin, or
/// the token balance); `funds` are the coins attached; `fee_swap_adapter` and
/// `fee_swap_asset_in` the stored adapter of the fee swap's venue and its answer to the
/// quote that `fee_swap_quote_request` describes, with the sent asset as the remaining
/// asset; `ibc_transfer_adapter` the stored IBC transfer adapter.
pub fn execute_swap_and_action(
    contract_address: &String,
    block_time_nanos: u64,
    sent_asset: Option<Asset>,
    sent_asset_check: Result<(), ContractError>,
    funds: &Vec<Coin>,
    user_swap: Swap,
    min_asset: Asset,
    timeout_timestamp: u64,
    post_swap_action: PostSwapAction,
    affiliates: Vec<Affiliate>,
    min_asset_available: Result<u128, ContractError>,
    fee_swap_adapter: Result<String, ContractError>,
    fee_swap_asset_in: Result<Asset, ContractError>,
    ibc_transfer_adapter: Result<String, ContractError>,
) -> (res: Result<SwapAndActionPlan, ContractError>)
    requires
        ({
            let sent = sent_asset_result(sent_asset, sent_asset_check, funds@);
            user_swap matches Swap::SmartSwapExactAssetIn(s) && sent is Ok && block_time_nanos
                <= timeout_timestamp && min_asset_available is Ok && ibc_fee_stage(
                post_swap_action.action,
                sent->Ok_0,
                fee_swap_adapter,
                fee_swap_asset_in,
                ibc_transfer_adapter,
            ) is Ok ==> routes_total(user_swap->SmartSwapExactAssetIn_0.routes@) <= u128::MAX
        }),
    ensures
        swap_and_action_post(
            *contract_address,
            block_time_nanos,
            sent_asset,
            sent_asset_check,
            funds@,
            user_swap,
            min_asset,
            timeout_timestamp,
            post_swap_action,
            affiliates,
            min_asset_available,
            fee_swap_adapter,
            fee_swap_asset_in,
            ibc_transfer_adapter,
            res,
        ),
{
    let sent = match unwrap_sent_asset(sent_asset, sent_asset_check, funds) {
        Ok(a) => a,
        Err(e) => {
            return Err(e);
        },
    };
    if block_time_nanos > timeout_timestamp {
        return Err(ContractError::Timeout);
    }
    let pre = match min_asset_available {
        Ok(v) => v,
        Err(e) => {
            return Err(e);
        },
    };
    let PostSwapAction { action: post_action, encoded } = post_swap_action;
    let (remaining, mut msgs, mut fee_attrs) = match pay_ibc_fees(
        post_action,
        sent,
        fee_swap_adapter,
        fee_swap_asset_in,
        ibc_transfer_adapter,
    ) {
        Ok(x) => x,
        Err(e) => {
            return Err(e);
        },
    };
    let exact_out = match &user_swap {
        Swap::SwapExactAssetIn(_) => false,
        Swap::SwapExactAssetOut(_) => true,
        Swap::SmartSwapExactAssetIn(_) => false,
    };
    let swap = match user_swap {
        Swap::SmartSwapExactAssetIn(s) => {
            let mut s = s;
            if let Err(e) = match_routes_to_amount(&mut s, remaining.amount()) {
                return Err(e);
            }
            Swap::SmartSwapExactAssetIn(s)
        },
        other => other,
    };
    let ghost n = msgs@.len();
    let ghost fee_msgs = msgs@;
    msgs.push(
        Msg::Execute {
            contract: contract_address.clone(),
            call: Call::UserSwap {
                swap,
                min_asset: min_asset.clone(),
                remaining_asset: remaining,
                affiliates,
            },
            funds: Vec::new(),
        },
    );
    msgs.push(
        Msg::Execute {
            contract: contract_address.clone(),
            call: Call::PostSwapAction {
                min_asset,
                timeout_timestamp,
                post_swap_action: encoded,
                exact_out,
            },
            funds: Vec::new(),
        },
    );
    assert(msgs@.take(n as int) =~= fee_msgs);
    let mut attributes: Vec<crate::response::Attribute> = Vec::new();
    attributes.push(action("execute_swap_and_action"));
    let ghost fa = attr_views(fee_attrs@);
    attributes.append(&mut fee_attrs);
    attributes.push(action("dispatch_user_swap"));
    attributes.push(action("dispatch_post_swap_action"));
    assert(attr_views(attributes@) =~= seq![("action"@, "execute_swap_and_action"@)] + fa + seq![
        ("action"@, "dispatch_user_swap"@),
        ("action"@, "dispatch_post_swap_action"@),
    ]);
    Ok(
        SwapAndActionPlan {
            pre_swap_out_asset_amount: pre,
            response: Response { messages: msgs, attributes },
        },
    )
}

} // verus!
