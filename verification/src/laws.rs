use vstd::prelude::*;
use crate::action::Action;
use crate::admin::{
    adapters_blocked,
    blocked_after,
    stored_after,
    stored_venues,
    update_config_post,
    venues_error,
    AddressUpdate,
    ConfigUpdate,
    SwapVenueEntry,
    SwapVenueUpdate,
};
use crate::asset::Asset;
use crate::decimal::{lemma_parse_unsigned_range, all_digits, digit_value, digits_value, is_digit, spec_parse_unsigned, unsigned_body};
use crate::error::{ContractError, SkipError};
use crate::oraidex::{pool_key_result_is, PoolKey};
use crate::post_swap::{post_swap_action_post, transfer_out_asset};
use crate::split::split_on;
use crate::swap::{
    adjusted_routes,
    is_largest_route_index,
    largest_route,
    lemma_adjusted_routes_total,
    lemma_largest_route,
    routes_adjust_error,
    routes_total,
    Route,
};
use crate::swap_and_action::{fee_coin_of, ibc_fee_stage, sent_asset_result, swap_and_action_post, SwapAndActionPlan};
use crate::universal::{
    convert_post,
    recover_call_is,
    recover_plan_post,
    universal_swap_post,
    Memo,
    MemoSwap,
    RecoverPlan,
    UniversalSwapPlan,
};
use crate::asset::Coin;
use crate::response::{decimal_text, digit_char, same_msg, Call, Msg, ReplyOn, Response};
use crate::action::PostSwapAction;
use crate::user_swap::{affiliate_fee_post, affiliate_msgs, fee_of};
use crate::swap::{Affiliate, Swap, SwapExactAssetOut};

verus! {

/// Making the routes of a split swap offer the remaining asset leaves them offering exactly
/// that amount, in as many routes, every route but the largest unchanged and every route
/// offering the same denomination through the same operations.
pub proof fn law_split_swap_matches_remaining(routes: Seq<Route>, amount: u128)
    requires
        routes_total(routes) <= u128::MAX,
        routes_adjust_error(routes, amount) is None,
    ensures
        routes_total(adjusted_routes(routes, amount)) == amount,
        adjusted_routes(routes, amount).len() == routes.len(),
        forall|i: int|
            0 <= i < routes.len() ==> (#[trigger] adjusted_routes(routes, amount)[i]).operations
                == routes[i].operations && adjusted_routes(routes, amount)[i].offer_asset.denom_of()
                == routes[i].offer_asset.denom_of(),
        forall|i: int|
            0 <= i < routes.len() && !is_largest_route_index(routes, i) ==> #[trigger] adjusted_routes(
                routes,
                amount,
            )[i] == routes[i],
{
    lemma_adjusted_routes_total(routes, amount);
    if routes.len() > 0 {
        lemma_largest_route(routes);
    }
    assert forall|i: int| 0 <= i < routes.len() implies (#[trigger] adjusted_routes(
        routes,
        amount,
    )[i]).operations == routes[i].operations && adjusted_routes(routes, amount)[i].offer_asset.denom_of()
        == routes[i].offer_asset.denom_of() by {
        if routes_total(routes) != amount && i == largest_route(routes) {
            let a = routes[i].offer_asset;
            assert(a.with_amount((a.amount_of() + amount - routes_total(routes)) as u128).denom_of()
                == a.denom_of());
        }
    }
}

/// The asset that the post swap action hands on is in the minimum asset's denomination and
/// never less than the minimum asset, whatever the swap brought in beyond it; after a swap
/// for an exact amount out it is exactly the minimum asset.
pub proof fn law_post_swap_out_at_least_min(
    min_asset: Asset,
    exact_out: bool,
    denom_is_address: bool,
    received: u128,
)
    requires
        received >= min_asset.amount_of(),
    ensures
        transfer_out_asset(min_asset, exact_out, denom_is_address, received).amount_of()
            >= min_asset.amount_of(),
        transfer_out_asset(min_asset, exact_out, denom_is_address, received).denom_of()
            == min_asset.denom_of(),
        exact_out ==> transfer_out_asset(min_asset, exact_out, denom_is_address, received)
            == min_asset,
{
}

/// The IBC fees are paid out of the asset sent and nothing else: what remains keeps its
/// denomination and kind, and falls by exactly the fee coin, or by the fee swap's quote
/// when a fee swap buys the fee coin.
pub proof fn law_ibc_fees_paid_from_remaining(
    post_swap_action: Action,
    remaining: Asset,
    fee_swap_adapter: Result<String, ContractError>,
    fee_swap_asset_in: Result<Asset, ContractError>,
    ibc_transfer_adapter: Result<String, ContractError>,
)
    requires
        ibc_fee_stage(
            post_swap_action,
            remaining,
            fee_swap_adapter,
            fee_swap_asset_in,
            ibc_transfer_adapter,
        ) is Ok,
    ensures
        ({
            let r = ibc_fee_stage(
                post_swap_action,
                remaining,
                fee_swap_adapter,
                fee_swap_asset_in,
                ibc_transfer_adapter,
            )->Ok_0.0;
            let paid: int = match post_swap_action {
                Action::IbcTransfer { fee_coin, fee_swap, .. } => if fee_swap is Some {
                    fee_swap_asset_in->Ok_0.amount_of() as int
                } else {
                    match fee_coin_of(fee_coin) {
                        Some(c) => c.amount as int,
                        None => 0,
                    }
                },
                _ => 0,
            };
            &&& r.denom_of() == remaining.denom_of()
            &&& r.is_native() == remaining.is_native()
            &&& r.amount_of() + paid == remaining.amount_of()
        }),
{
}

/// The venues that a configuration update stores have names that storage did not hold and
/// that no other venue of the update takes.
pub proof fn law_swap_venue_names_unique(v: Seq<SwapVenueUpdate>)
    requires
        venues_error(v) is None,
    ensures
        forall|i: int| 0 <= i < v.len() ==> !(#[trigger] v[i]).name_stored,
        forall|i: int, j: int|
            0 <= i < j < v.len() ==> (#[trigger] v[i]).name@ != (#[trigger] v[j]).name@,
    decreases v.len(),
{
    if v.len() > 0 {
        let p = v.drop_last();
        law_swap_venue_names_unique(p);
        assert forall|i: int| 0 <= i < v.len() implies !(#[trigger] v[i]).name_stored by {
            if i < v.len() - 1 {
                assert(v[i] == p[i]);
            }
        }
        assert forall|i: int, j: int| 0 <= i < j < v.len() implies (#[trigger] v[i]).name@ != (
        #[trigger] v[j]).name@ by {
            if j < v.len() - 1 {
                assert(v[i] == p[i] && v[j] == p[j]);
            } else {
                assert(v[i].name@ != v.last().name@);
            }
        }
    }
}

/// The pieces of a text with no separator in it: the text itself.
proof fn lemma_split_no_sep(s: Seq<char>, sep: char)
    requires
        !s.contains(sep),
    ensures
        split_on(s, sep) == seq![s],
    decreases s.len(),
{
    if s.len() > 0 {
        assert(!s.drop_last().contains(sep)) by {
            if s.drop_last().contains(sep) {
                let k = choose|k: int| 0 <= k < s.drop_last().len() && s.drop_last()[k] == sep;
                assert(s[k] == sep);
            }
        }
        lemma_split_no_sep(s.drop_last(), sep);
        assert(s.last() != sep) by {
            assert(s[s.len() - 1] == s.last());
        }
        assert(s.drop_last().push(s.last()) =~= s);
    } else {
        assert(s =~= Seq::<char>::empty());
    }
}

/// Splitting `a`, a separator and `b`: the pieces of `a`, then those of `b`, the last
/// piece of `a` ending where the separator stands.
proof fn lemma_split_concat(a: Seq<char>, b: Seq<char>, sep: char)
    ensures
        split_on(a + seq![sep] + b, sep) == split_on(a, sep) + split_on(b, sep),
    decreases b.len(),
{
    if b.len() == 0 {
        assert(a + seq![sep] + b =~= a.push(sep));
        assert((a + seq![sep] + b).drop_last() =~= a);
        crate::split::lemma_split_on_nonempty(a, sep);
    } else {
        lemma_split_concat(a, b.drop_last(), sep);
        assert((a + seq![sep] + b).drop_last() =~= a + seq![sep] + b.drop_last());
        assert((a + seq![sep] + b).last() == b.last());
        crate::split::lemma_split_on_nonempty(b.drop_last(), sep);
        let sa = split_on(a, sep);
        let sb = split_on(b.drop_last(), sep);
        if b.last() != sep {
            assert((sa + sb).update((sa + sb).len() - 1, (sa + sb).last().push(b.last())) =~= sa
                + sb.update(sb.len() - 1, sb.last().push(b.last())));
        } else {
            assert((sa + sb).push(Seq::<char>::empty()) =~= sa + sb.push(Seq::<char>::empty()));
        }
    }
}

/// A pool id written as `tokenX-tokenY-fee-tickSpacing`, from token names without `-`,
/// reads back as those tokens with the fee and tick spacing that the last two fields
/// write; it is refused exactly when one of them is not a number of its type.
pub proof fn law_pool_id_fields(x: Seq<char>, y: Seq<char>, f: Seq<char>, t: Seq<char>)
    requires
        !x.contains('-'),
        !y.contains('-'),
        !f.contains('-'),
        !t.contains('-'),
    ensures
        ({
            let id = x + seq!['-'] + y + seq!['-'] + f + seq!['-'] + t;
            &&& split_on(id, '-') == seq![x, y, f, t]
            &&& forall|r|
                #[trigger] pool_key_result_is(id, r) ==> (r is Ok <==> spec_parse_unsigned(
                    f,
                    u64::MAX as int,
                ) is Some && spec_parse_unsigned(t, u16::MAX as int) is Some)
            &&& forall|r|
                #[trigger] pool_key_result_is(id, r) && r is Ok ==> r->Ok_0.token_x@ == x
                    && r->Ok_0.token_y@ == y && Some(r->Ok_0.fee_tier.fee.0 as int)
                    == spec_parse_unsigned(f, u64::MAX as int) && Some(
                    r->Ok_0.fee_tier.tick_spacing as int,
                ) == spec_parse_unsigned(t, u16::MAX as int)
        }),
{
    let xy = x + seq!['-'] + y;
    let xyf = xy + seq!['-'] + f;
    let id = xyf + seq!['-'] + t;
    assert(x + seq!['-'] + y + seq!['-'] + f + seq!['-'] + t =~= id);
    lemma_split_no_sep(x, '-');
    lemma_split_no_sep(y, '-');
    lemma_split_no_sep(f, '-');
    lemma_split_no_sep(t, '-');
    lemma_split_concat(x, y, '-');
    lemma_split_concat(xy, f, '-');
    lemma_split_concat(xyf, t, '-');
    assert(split_on(id, '-') =~= seq![x, y, f, t]);
}


/// A universal swap whose memo holds both a swap and a post swap action answers what
/// converting them into messages (`convert_user_swap_with_action_to_cosmos_msgs`) answers
/// for the same memo and asset: the recovery address's refusal first, then the
/// conversion's error, or, where the conversion into an empty list (`converted`) succeeds,
/// exactly that one message, and no stored pre swap amount.
pub proof fn law_universal_swap_is_conversion(
    contract_address: String,
    sent_asset: Option<Asset>,
    sent_asset_check: Result<(), ContractError>,
    funds: Seq<Coin>,
    memo: Memo,
    recovery_check: Result<(), ContractError>,
    sent_denom_available: Result<u128, ContractError>,
    sent_denom_is_address: bool,
    res: Result<UniversalSwapPlan, ContractError>,
    converted: Seq<Msg>,
    conversion: Result<(), ContractError>,
)
    requires
        sent_asset_result(sent_asset, sent_asset_check, funds) is Ok,
        memo.user_swap is Some,
        memo.post_swap_action is Some,
        universal_swap_post(
            contract_address,
            sent_asset,
            sent_asset_check,
            funds,
            Ok(memo),
            recovery_check,
            sent_denom_available,
            sent_denom_is_address,
            res,
        ),
        convert_post(
            Seq::empty(),
            converted,
            conversion,
            contract_address,
            memo.user_swap->Some_0,
            memo.post_swap_action->Some_0,
            sent_asset_result(sent_asset, sent_asset_check, funds)->Ok_0,
            memo.timeout_timestamp,
            memo.recovery_addr,
        ),
    ensures
        recovery_check is Err ==> res == Err::<UniversalSwapPlan, ContractError>(
            recovery_check->Err_0,
        ),
        recovery_check is Ok && conversion is Err ==> res == Err::<UniversalSwapPlan, ContractError>(
            conversion->Err_0,
        ),
        recovery_check is Ok && conversion is Ok ==> (res matches Ok(p) && {
            &&& p.pre_swap_out_asset_amount is None
            &&& p.response.messages@.len() == converted.len() == 1
            &&& same_msg(p.response.messages@[0], converted[0])
            &&& convert_post(
                Seq::empty(),
                p.response.messages@,
                conversion,
                contract_address,
                memo.user_swap->Some_0,
                memo.post_swap_action->Some_0,
                sent_asset_result(sent_asset, sent_asset_check, funds)->Ok_0,
                memo.timeout_timestamp,
                memo.recovery_addr,
            )
        }),
{
    if recovery_check is Ok && conversion is Ok {
        let p = res->Ok_0;
        let a = p.response.messages@;
        assert(a.len() == 1 && converted.len() == 1);
        assert(a.last() == a[0]);
        assert(converted.last() == converted[0]);
        let us = memo.user_swap->Some_0;
        let pa = memo.post_swap_action->Some_0->Ok_0;
        let sent = sent_asset_result(sent_asset, sent_asset_check, funds)->Ok_0;
        assert(recover_call_is(a[0], contract_address, us, pa, sent, memo.timeout_timestamp, memo.recovery_addr));
        assert(recover_call_is(converted[0], contract_address, us, pa, sent, memo.timeout_timestamp, memo.recovery_addr));
        match (a[0], converted[0]) {
            (Msg::Execute { call: k1, funds: f1, .. }, Msg::Execute { call: k2, funds: f2, .. }) => {
                assert(f1@ == f2@);
                match (k1, k2) {
                    (
                        Call::SwapAndActionWithRecover { affiliates: x1, .. },
                        Call::SwapAndActionWithRecover { affiliates: x2, .. },
                    ) => {
                        assert(x1@ =~= x2@);
                    },
                    _ => {},
                }
            },
            _ => {},
        }
    }
}


/// A venue list without error names no venue that storage already holds.
proof fn lemma_venues_ok_not_stored(v: Seq<SwapVenueUpdate>)
    requires
        venues_error(v) is None,
    ensures
        forall|i: int| 0 <= i < v.len() ==> !(#[trigger] v[i]).name_stored,
    decreases v.len(),
{
    if v.len() > 0 {
        lemma_venues_ok_not_stored(v.drop_last());
        assert forall|i: int| 0 <= i < v.len() implies !(#[trigger] v[i]).name_stored by {
            if i < v.len() - 1 {
                assert(v.drop_last()[i] == v[i]);
            }
        }
    }
}

/// Storing entries keeps every name that none of them takes, and maps every name either
/// as before or to one of the entries' adapters.
proof fn lemma_stored_venues(venues: Map<Seq<char>, Seq<char>>, entries: Seq<SwapVenueEntry>)
    ensures
        forall|k: Seq<char>|
            #[trigger] stored_venues(venues, entries).dom().contains(k) ==> (venues.dom().contains(
                k,
            ) && stored_venues(venues, entries)[k] == venues[k]) || exists|j: int|
                0 <= j < entries.len() && stored_venues(venues, entries)[k] == (
                #[trigger] entries[j]).address@,
        forall|k: Seq<char>|
            venues.dom().contains(k) && (forall|j: int|
                0 <= j < entries.len() ==> (#[trigger] entries[j]).name@ != k) ==> #[trigger] stored_venues(
                venues,
                entries,
            ).dom().contains(k) && stored_venues(venues, entries)[k] == venues[k],
    decreases entries.len(),
{
    if entries.len() > 0 {
        let prev = entries.drop_last();
        lemma_stored_venues(venues, prev);
        let n = entries.len() - 1;
        assert forall|k: Seq<char>|
            #[trigger] stored_venues(venues, entries).dom().contains(k) implies (
            venues.dom().contains(k) && stored_venues(venues, entries)[k] == venues[k])
            || exists|j: int|
            0 <= j < entries.len() && stored_venues(venues, entries)[k] == (
            #[trigger] entries[j]).address@ by {
            if k == entries.last().name@ {
                assert(stored_venues(venues, entries)[k] == entries[n].address@);
            } else {
                assert(stored_venues(venues, prev).dom().contains(k));
                if !(venues.dom().contains(k) && stored_venues(venues, prev)[k] == venues[k]) {
                    let j = choose|j: int|
                        0 <= j < prev.len() && stored_venues(venues, prev)[k] == (
                        #[trigger] prev[j]).address@;
                    assert(prev[j] == entries[j]);
                }
            }
        }
        assert forall|k: Seq<char>|
            venues.dom().contains(k) && (forall|j: int|
                0 <= j < entries.len() ==> (#[trigger] entries[j]).name@ != k) implies #[trigger] stored_venues(
            venues,
            entries,
        ).dom().contains(k) && stored_venues(venues, entries)[k] == venues[k] by {
            assert(entries[n].name@ != k);
            assert forall|j: int| 0 <= j < prev.len() implies (#[trigger] prev[j]).name@ != k by {
                assert(prev[j] == entries[j]);
            }
            assert(stored_venues(venues, prev).dom().contains(k));
            assert(stored_venues(venues, prev)[k] == venues[k]);
        }
    }
}

/// A configuration update never unblocks an address and never removes or re-points a
/// stored venue; and where every stored adapter was blocked before it (the venue map
/// `venues`, the blocked addresses `blocked`, the IBC adapters `ibc_transfer_stored` and
/// `ibc_wasm_stored`), every stored adapter is blocked after it. `name_stored` of each
/// venue is whether `venues` holds its name.
pub proof fn law_update_config_keeps_adapters_blocked(
    sender: String,
    admin: Result<Option<String>, ContractError>,
    owner: Option<String>,
    swap_venues: Option<Vec<SwapVenueUpdate>>,
    ibc_transfer: Option<AddressUpdate>,
    ibc_wasm: Option<AddressUpdate>,
    res: Result<ConfigUpdate, ContractError>,
    venues: Map<Seq<char>, Seq<char>>,
    blocked: Set<Seq<char>>,
    ibc_transfer_stored: Option<Seq<char>>,
    ibc_wasm_stored: Option<Seq<char>>,
)
    requires
        update_config_post(sender, admin, owner, swap_venues, ibc_transfer, ibc_wasm, res),
        res is Ok,
        swap_venues matches Some(v) ==> forall|i: int|
            0 <= i < v@.len() ==> (#[trigger] v@[i]).name_stored == venues.dom().contains(
                v@[i].name@,
            ),
    ensures
        ({
            let u = res->Ok_0;
            let venues_after = stored_venues(venues, u.swap_venues@);
            let blocked_now = blocked_after(blocked, u.blocked@);
            &&& blocked.subset_of(blocked_now)
            &&& venues.submap_of(venues_after)
            &&& adapters_blocked(venues, blocked, ibc_transfer_stored, ibc_wasm_stored)
                ==> adapters_blocked(
                venues_after,
                blocked_now,
                stored_after(ibc_transfer_stored, u.ibc_transfer_contract_address),
                stored_after(ibc_wasm_stored, u.ibc_wasm_contract_address),
            )
        }),
{
    let v = match swap_venues {
        Some(v) => v@,
        None => Seq::<SwapVenueUpdate>::empty(),
    };
    let u = res->Ok_0;
    let e = u.swap_venues@;
    let venues_after = stored_venues(venues, e);
    let blocked_now = blocked_after(blocked, u.blocked@);
    let t_len: int = match ibc_transfer {
        Some(_) => 1,
        None => 0,
    };
    assert(venues_error(v) is None);
    lemma_venues_ok_not_stored(v);
    lemma_stored_venues(venues, e);
    assert forall|k: Seq<char>| venues.dom().contains(k) implies venues_after.dom().contains(k)
        && venues_after[k] == venues[k] by {
        assert forall|j: int| 0 <= j < e.len() implies (#[trigger] e[j]).name@ != k by {
            assert(e[j].name == v[j].name);
            assert(!v[j].name_stored);
        }
    }
    assert(blocked.subset_of(blocked_now));
    if adapters_blocked(venues, blocked, ibc_transfer_stored, ibc_wasm_stored) {
        assert forall|k: Seq<char>| #[trigger] venues_after.dom().contains(k) implies blocked_now.contains(
            venues_after[k],
        ) by {
            if !(venues.dom().contains(k) && venues_after[k] == venues[k]) {
                let j = choose|j: int| 0 <= j < e.len() && venues_after[k] == (#[trigger] e[j]).address@;
                assert(u.blocked@[j] == e[j].address);
                assert(u.blocked@[j]@ == venues_after[k]);
            }
        }
        if let Some(t) = u.ibc_transfer_contract_address {
            assert(u.blocked@[e.len() as int] == t);
        }
        if let Some(w) = u.ibc_wasm_contract_address {
            assert(u.blocked@[e.len() + t_len] == w);
        }
    }
}


/// A number written in decimal is a nonempty string of digits that denotes it.
proof fn lemma_decimal_text(n: nat)
    ensures
        decimal_text(n).len() > 0,
        all_digits(decimal_text(n)),
        digits_value(decimal_text(n)) == n,
    decreases n,
{
    if n < 10 {
        let c = digit_char(n);
        assert(c as int == n + 48);
        assert(is_digit(c));
        assert(seq![c].drop_last() =~= Seq::<char>::empty());
        assert(all_digits(seq![c]));
        assert(digit_value(c) == n);
        assert(digits_value(seq![c]) == digits_value(Seq::<char>::empty()) * 10 + digit_value(c));
    } else {
        lemma_decimal_text(n / 10);
        let d = n % 10;
        let c = digit_char(d);
        assert(c as int == d + 48);
        assert(is_digit(c));
        let t = decimal_text(n / 10);
        assert(decimal_text(n).drop_last() =~= t);
        assert forall|i: int| 0 <= i < decimal_text(n).len() implies is_digit(
            #[trigger] decimal_text(n)[i],
        ) by {
            if i < t.len() {
                assert(decimal_text(n)[i] == t[i]);
            }
        }
        assert(digit_value(c) == d);
        assert(digits_value(decimal_text(n)) == digits_value(t) * 10 + digit_value(c));
        assert((n / 10) * 10 + d == n);
    }
}

/// A number written in decimal reads back as itself wherever it fits, and holds no `-`.
pub proof fn law_decimal_text_parses(n: nat, max: int)
    requires
        n <= max,
    ensures
        spec_parse_unsigned(decimal_text(n), max) == Some(n as int),
        !decimal_text(n).contains('-'),
{
    lemma_decimal_text(n);
    let t = decimal_text(n);
    assert(is_digit(t[0]));
    assert(unsigned_body(t) == t);
    if t.contains('-') {
        let i = choose|i: int| 0 <= i < t.len() && t[i] == '-';
        assert(is_digit(t[i]));
    }
}

/// A v3 pool key written out as `tokenX-tokenY-fee-tickSpacing`, from token names without
/// `-` and the fee and tick spacing in decimal, reads back as the same key.
pub proof fn law_pool_key_round_trip(x: Seq<char>, y: Seq<char>, fee: u64, tick_spacing: u16)
    requires
        !x.contains('-'),
        !y.contains('-'),
    ensures
        forall|r: Result<PoolKey, ContractError>|
            #[trigger] pool_key_result_is(
                x + seq!['-'] + y + seq!['-'] + decimal_text(fee as nat) + seq!['-'] + decimal_text(
                    tick_spacing as nat,
                ),
                r,
            ) ==> (r matches Ok(k) && k.token_x@ == x && k.token_y@ == y && k.fee_tier.fee.0 == fee
                && k.fee_tier.tick_spacing == tick_spacing),
{
    law_decimal_text_parses(fee as nat, u64::MAX as int);
    law_decimal_text_parses(tick_spacing as nat, u16::MAX as int);
    law_pool_id_fields(x, y, decimal_text(fee as nat), decimal_text(tick_spacing as nat));
}


/// The post swap action hands on what the swap brought in (the contract's balance gain,
/// `post - pre`), or exactly the minimum asset after a swap for an exact amount out, in the
/// minimum asset's denomination, as a coin unless that denomination is a token: it sends
/// it to the transfer's address; bridges a coin over IBC through the IBC transfer adapter
/// with that coin as the call's only funds; sends it to the called contract with the
/// action's message; or bridges it through the IBC wasm adapter, a coin as the adapter
/// call's only funds and a token sent to the adapter by its CW20 contract. Only the
/// contract itself may call it, and it fails when the swap brought in less than the
/// minimum asset.
pub proof fn law_post_swap_hands_on_what_the_swap_brought(
    sender: String,
    contract_address: String,
    min_asset: Asset,
    timeout_timestamp: u64,
    post_swap_action: Action,
    exact_out: bool,
    pre: u128,
    post: u128,
    min_denom_is_address: bool,
    address_check: Result<(), ContractError>,
    adapter: Result<String, ContractError>,
    contract_blocked: bool,
    res: Result<Response, ContractError>,
)
    requires
        post_swap_action_post(
            sender,
            contract_address,
            min_asset,
            timeout_timestamp,
            post_swap_action,
            exact_out,
            Ok(pre),
            Ok(post),
            min_denom_is_address,
            address_check,
            adapter,
            contract_blocked,
            res,
        ),
    ensures
        sender@ != contract_address@ ==> res == Err::<Response, ContractError>(
            ContractError::Unauthorized,
        ),
        sender@ == contract_address@ && pre <= post && post - pre < min_asset.amount_of() ==> res
            == Err::<Response, ContractError>(ContractError::ReceivedLessAssetFromSwapsThanMinAsset),
        res is Ok ==> sender@ == contract_address@ && pre + min_asset.amount_of() <= post
            && res->Ok_0.messages@.len() == 1,
        res is Ok ==> ({
            let m = res->Ok_0.messages@[0];
            let amount: int = if exact_out {
                min_asset.amount_of() as int
            } else {
                post - pre
            };
            let native = if exact_out {
                min_asset is Native
            } else {
                !min_denom_is_address
            };
            let out_ok = |a: Asset|
                a.denom_of() == min_asset.denom_of() && a.amount_of() == amount && (a is Native)
                    == native;
            match post_swap_action {
                Action::Transfer { to_address } => address_check is Ok && (m matches Msg::Transfer {
                    asset,
                    recipient,
                } && recipient == to_address && out_ok(asset)),
                Action::IbcTransfer { ibc_info, .. } => address_check is Ok && native && (
                m matches Msg::Execute {
                    contract,
                    call: Call::IbcTransfer { ibc_info: i, coin, timeout_timestamp: t },
                    funds,
                } && adapter == Ok::<String, ContractError>(contract) && i == ibc_info && t
                    == timeout_timestamp && funds@ == seq![coin] && coin.denom@
                    == min_asset.denom_of() && coin.amount == amount),
                Action::ContractCall { contract_address: to, msg } => address_check is Ok
                    && !contract_blocked && (m matches Msg::SendWithCall {
                    asset,
                    contract,
                    call: Call::Raw(b),
                } && contract == to && b == msg && out_ok(asset)),
                Action::IbcWasmTransfer { ibc_wasm_info } => {
                    &&& native ==> (m matches Msg::Execute {
                        contract,
                        call: Call::IbcWasmTransfer { ibc_wasm_info: i, asset: Asset::Native(c) },
                        funds,
                    } && adapter == Ok::<String, ContractError>(contract) && i == ibc_wasm_info
                        && funds@ == seq![c] && c.denom@ == min_asset.denom_of() && c.amount
                        == amount)
                    &&& !native ==> (m matches Msg::Cw20Send {
                        token,
                        contract,
                        amount: n,
                        call: Call::IbcWasmTransfer { ibc_wasm_info: i, asset: Asset::Cw20(t) },
                    } && adapter == Ok::<String, ContractError>(contract) && i == ibc_wasm_info
                        && token == t.address && n == t.amount && t.address@
                        == min_asset.denom_of() && t.amount == amount)
                },
            }
        }),
{
}

/// The call of the swap and action with recovery that a memo's swap and post swap action
/// make is added after the messages already there, goes to the contract itself with the
/// asset sent and the recovery address, and carries the asset sent as its funds when it is
/// a coin (and no funds for a token), whatever kind of swap the memo holds.
pub proof fn law_recovery_call_forwards_the_sent_coin(
    before: Seq<Msg>,
    after: Seq<Msg>,
    contract_address: String,
    user_swap: MemoSwap,
    post_swap_action: Result<Vec<u8>, ContractError>,
    sent_asset: Asset,
    timeout_timestamp: u64,
    recovery_addr: String,
)
    requires
        convert_post(
            before,
            after,
            Ok(()),
            contract_address,
            user_swap,
            post_swap_action,
            sent_asset,
            timeout_timestamp,
            recovery_addr,
        ),
    ensures
        after.len() == before.len() + 1,
        after.take(before.len() as int) == before,
        after.last() matches Msg::Execute {
            contract,
            call: Call::SwapAndActionWithRecover {
                sent_asset: s,
                timeout_timestamp: t,
                post_swap_action: pa,
                affiliates,
                recovery_addr: r,
                ..
            },
            funds,
        } && contract == contract_address && s == Some(sent_asset) && r == recovery_addr && t
            == timeout_timestamp && post_swap_action == Ok::<Vec<u8>, ContractError>(pa)
            && affiliates@.len() == 0 && match sent_asset {
            Asset::Native(c) => funds@ == seq![c],
            Asset::Cw20(_) => funds@.len() == 0,
        },
{
}

/// An affiliate whose address the chain accepts is paid its basis points of the minimum
/// amount, rounded down: the largest fee whose ten-thousandfold does not exceed the amount
/// times the basis points.
pub proof fn law_affiliate_fee_is_basis_points(
    min_asset: Asset,
    affiliate: Affiliate,
    res: Result<u128, ContractError>,
)
    requires
        min_asset.amount_of() * affiliate.basis_points_fee / 10000 <= u128::MAX,
        affiliate_fee_post(min_asset, affiliate, Ok(()), res),
    ensures
        res is Ok,
        res->Ok_0 * 10000 <= min_asset.amount_of() * affiliate.basis_points_fee,
        min_asset.amount_of() * affiliate.basis_points_fee < (res->Ok_0 + 1) * 10000,
{
    reveal(fee_of);
    let x: int = min_asset.amount_of() * affiliate.basis_points_fee;
    assert(x >= 0) by (nonlinear_arith)
        requires
            x == min_asset.amount_of() * affiliate.basis_points_fee,
    ;
    let f = x / 10000;
    assert(f * 10000 <= x && x < (f + 1) * 10000) by (nonlinear_arith)
        requires
            x >= 0,
            f == x / 10000,
    ;
}

/// A swap and action whose post swap action is an IBC transfer, once the asset sent is
/// valid, the call is in time and the balance was read, fails: with the fees' error when
/// the fees are given but do not make one coin, whether or not a fee swap is given; when a
/// fee swap is given without fees; and, without a fee swap, when the fee coin is in another
/// denomination than the asset sent or more than it.
pub proof fn law_ibc_fee_errors(
    contract_address: String,
    block_time_nanos: u64,
    sent_asset: Option<Asset>,
    sent_asset_check: Result<(), ContractError>,
    funds: Seq<Coin>,
    user_swap: Swap,
    min_asset: Asset,
    timeout_timestamp: u64,
    ibc_info: Vec<u8>,
    fee_coin: Option<Result<Coin, SkipError>>,
    fee_swap: Option<SwapExactAssetOut>,
    encoded: Vec<u8>,
    affiliates: Vec<Affiliate>,
    min_asset_available: Result<u128, ContractError>,
    fee_swap_adapter: Result<String, ContractError>,
    fee_swap_asset_in: Result<Asset, ContractError>,
    ibc_transfer_adapter: Result<String, ContractError>,
    res: Result<SwapAndActionPlan, ContractError>,
)
    requires
        swap_and_action_post(
            contract_address,
            block_time_nanos,
            sent_asset,
            sent_asset_check,
            funds,
            user_swap,
            min_asset,
            timeout_timestamp,
            (PostSwapAction { action: Action::IbcTransfer { ibc_info, fee_coin, fee_swap }, encoded }),
            affiliates,
            min_asset_available,
            fee_swap_adapter,
            fee_swap_asset_in,
            ibc_transfer_adapter,
            res,
        ),
        sent_asset_result(sent_asset, sent_asset_check, funds) is Ok,
        block_time_nanos <= timeout_timestamp,
        min_asset_available is Ok,
    ensures
        ({
            let sent = sent_asset_result(sent_asset, sent_asset_check, funds)->Ok_0;
            &&& fee_coin matches Some(Err(e)) ==> res == Err::<SwapAndActionPlan, ContractError>(
                ContractError::Skip(e),
            )
            &&& fee_coin is None && fee_swap is Some ==> res == Err::<
                SwapAndActionPlan,
                ContractError,
            >(ContractError::FeeSwapWithoutIbcFees)
            &&& fee_swap is None && (fee_coin matches Some(Ok(c)) && c.denom@ != sent.denom_of())
                ==> res == Err::<SwapAndActionPlan, ContractError>(
                ContractError::IBCFeeDenomDiffersFromAssetReceived,
            )
            &&& fee_swap is None && (fee_coin matches Some(Ok(c)) && c.amount > sent.amount_of())
                ==> res is Err
        }),
{
}

/// What a swap and action with recovery keeps to give back: every coin attached, in order,
/// then the token sent, when a token was sent, whether or not coins were attached; nothing
/// else. It answers, with no attributes, one call of the contract itself for the swap and
/// action with the same arguments and coins, whose reply always comes back.
pub proof fn law_recovery_keeps_coins_then_token(
    contract_address: String,
    funds: Seq<Coin>,
    sent_asset: Option<Asset>,
    user_swap: Swap,
    min_asset: Asset,
    timeout_timestamp: u64,
    post_swap_action: Vec<u8>,
    affiliates: Vec<Affiliate>,
    recovery_addr: String,
    res: RecoverPlan,
)
    requires
        recover_plan_post(
            contract_address,
            funds,
            sent_asset,
            user_swap,
            min_asset,
            timeout_timestamp,
            post_swap_action,
            affiliates,
            recovery_addr,
            res,
        ),
    ensures
        res.assets@.len() == funds.len() + if sent_asset matches Some(Asset::Cw20(_)) {
            1int
        } else {
            0int
        },
        forall|i: int| 0 <= i < funds.len() ==> res.assets@[i] == Asset::Native(#[trigger] funds[i]),
        sent_asset matches Some(Asset::Cw20(c)) ==> res.assets@.last() == Asset::Cw20(c),
        res.recovery_addr == recovery_addr,
        res.attributes@.len() == 0,
        res.sub_messages@.len() == 1,
        res.sub_messages@[0].reply_on == ReplyOn::Always,
        res.sub_messages@[0].msg matches Msg::Execute {
            contract,
            call: Call::SwapAndAction {
                sent_asset: s,
                user_swap: u,
                min_asset: a,
                timeout_timestamp: t,
                post_swap_action: pa,
                affiliates: af,
            },
            funds: f,
        } && contract == contract_address && f@ == funds && s == sent_asset && u == user_swap && a
            == min_asset && t == timeout_timestamp && pa == post_swap_action && af == affiliates,
{
}


/// A swap and action refuses a call past its timeout. When it goes ahead, it stores the
/// balance it read before the swap, pays the IBC fees of an IBC transfer out of the asset
/// sent (through the fee swap's adapter with its quote, when a fee swap buys the fee coin,
/// then by sending the fee coin to the IBC transfer adapter), and then calls the contract
/// itself, with no coins, first for the user swap of what remains of the asset sent (the
/// same swap, unless its routes are split) with the minimum asset and affiliates, then for
/// the post swap action with the minimum asset, the timeout and the encoded action, marked
/// as exact out exactly when the swap is for an exact amount out.
pub proof fn law_swap_and_action_pays_fees_then_swaps_then_acts(
    contract_address: String,
    block_time_nanos: u64,
    sent_asset: Option<Asset>,
    sent_asset_check: Result<(), ContractError>,
    funds: Seq<Coin>,
    user_swap: Swap,
    min_asset: Asset,
    timeout_timestamp: u64,
    post_swap_action: PostSwapAction,
    affiliates: Vec<Affiliate>,
    min_asset_available: Result<u128, ContractError>,
    fee_swap_adapter: Result<String, ContractError>,
    fee_swap_asset_in: Result<Asset, ContractError>,
    ibc_transfer_adapter: Result<String, ContractError>,
    res: Result<SwapAndActionPlan, ContractError>,
)
    requires
        swap_and_action_post(
            contract_address,
            block_time_nanos,
            sent_asset,
            sent_asset_check,
            funds,
            user_swap,
            min_asset,
            timeout_timestamp,
            post_swap_action,
            affiliates,
            min_asset_available,
            fee_swap_adapter,
            fee_swap_asset_in,
            ibc_transfer_adapter,
            res,
        ),
    ensures
        sent_asset_result(sent_asset, sent_asset_check, funds) is Ok && block_time_nanos
            > timeout_timestamp ==> res == Err::<SwapAndActionPlan, ContractError>(
            ContractError::Timeout,
        ),
        res is Ok ==> ({
            let plan = res->Ok_0;
            let msgs = plan.response.messages@;
            let sent = sent_asset_result(sent_asset, sent_asset_check, funds)->Ok_0;
            let n = msgs.len() - 2;
            let paid: int = match post_swap_action.action {
                Action::IbcTransfer { fee_coin: Some(Ok(c)), fee_swap, .. } => if fee_swap is Some {
                    fee_swap_asset_in->Ok_0.amount_of() as int
                } else {
                    c.amount as int
                },
                _ => 0,
            };
            &&& sent_asset_result(sent_asset, sent_asset_check, funds) is Ok
            &&& block_time_nanos <= timeout_timestamp
            &&& min_asset_available == Ok::<u128, ContractError>(plan.pre_swap_out_asset_amount)
            &&& msgs.len() >= 2
            &&& msgs[n] matches Msg::Execute {
                contract,
                call: Call::UserSwap { swap, min_asset: m, remaining_asset: r, affiliates: af },
                funds: f,
            } && contract == contract_address && f@.len() == 0 && m == min_asset && af
                == affiliates && r.denom_of() == sent.denom_of() && (r is Native) == (
            sent is Native) && r.amount_of() + paid == sent.amount_of() && (!(
            user_swap is SmartSwapExactAssetIn) ==> swap == user_swap)
            &&& msgs[n + 1] matches Msg::Execute {
                contract,
                call: Call::PostSwapAction {
                    min_asset: m,
                    timeout_timestamp: t,
                    post_swap_action: pa,
                    exact_out: x,
                },
                funds: f,
            } && contract == contract_address && f@.len() == 0 && m == min_asset && t
                == timeout_timestamp && pa == post_swap_action.encoded && x == (
            user_swap is SwapExactAssetOut)
            &&& match post_swap_action.action {
                Action::IbcTransfer { fee_coin: Some(Ok(c)), fee_swap, .. } => {
                    &&& n >= 1
                    &&& msgs[n - 1] == Msg::BankSend {
                        to_address: ibc_transfer_adapter->Ok_0,
                        coin: c,
                    }
                    &&& fee_swap is None ==> n == 1
                    &&& fee_swap is Some ==> n == 2 && msgs[0] == Msg::SendWithCall {
                        asset: fee_swap_asset_in->Ok_0,
                        contract: fee_swap_adapter->Ok_0,
                        call: Call::AdapterSwapExactOut(fee_swap->Some_0),
                    }
                },
                _ => n == 0,
            }
        }),
{
    if res is Ok {
        let sent = sent_asset_result(sent_asset, sent_asset_check, funds)->Ok_0;
        let stage = ibc_fee_stage(
            post_swap_action.action,
            sent,
            fee_swap_adapter,
            fee_swap_asset_in,
            ibc_transfer_adapter,
        );
        assert(stage is Ok);
        law_ibc_fees_paid_from_remaining(
            post_swap_action.action,
            sent,
            fee_swap_adapter,
            fee_swap_asset_in,
            ibc_transfer_adapter,
        );
        let fee_msgs = stage->Ok_0.1;
        let msgs = res->Ok_0.response.messages@;
        assert(msgs.take(fee_msgs.len() as int) =~= fee_msgs);
        assert(msgs.len() == fee_msgs.len() + 2);
        assert forall|k: int| 0 <= k < fee_msgs.len() implies msgs[k] == fee_msgs[k] by {
            assert(msgs.take(fee_msgs.len() as int)[k] == msgs[k]);
        }
    }
}


/// A universal swap whose memo holds no post swap action sends the asset sent back to the
/// memo's recovery address, whether or not the memo holds a swap. One whose memo holds a
/// post swap action and no swap fails when the contract's balance of the sent denomination
/// is below the asset sent; otherwise it stores that balance less the asset sent and calls
/// the contract itself, with no coins, for the post swap action, not as exact out, with the
/// memo's encoded action and timeout and, as the minimum asset, the memo's minimum receive
/// in the sent denomination (a token when that denomination is an address).
pub proof fn law_universal_swap_without_swap(
    contract_address: String,
    sent_asset: Option<Asset>,
    sent_asset_check: Result<(), ContractError>,
    funds: Seq<Coin>,
    memo: Memo,
    recovery_check: Result<(), ContractError>,
    sent_denom_available: Result<u128, ContractError>,
    sent_denom_is_address: bool,
    res: Result<UniversalSwapPlan, ContractError>,
)
    requires
        universal_swap_post(
            contract_address,
            sent_asset,
            sent_asset_check,
            funds,
            Ok(memo),
            recovery_check,
            sent_denom_available,
            sent_denom_is_address,
            res,
        ),
        sent_asset_result(sent_asset, sent_asset_check, funds) is Ok,
    ensures
        ({
            let sent = sent_asset_result(sent_asset, sent_asset_check, funds)->Ok_0;
            &&& memo.post_swap_action is None ==> (res matches Ok(p)
                && p.pre_swap_out_asset_amount is None && p.response.messages@.len() == 1
                && p.response.messages@[0] == Msg::Transfer {
                asset: sent,
                recipient: memo.recovery_addr,
            })
            &&& memo.post_swap_action is Some && memo.user_swap is None && (
            sent_denom_available matches Ok(a) && a < sent.amount_of()) ==> res is Err
            &&& memo.post_swap_action is Some && memo.user_swap is None && res is Ok ==> ({
                let p = res->Ok_0;
                let m0 = p.response.messages@[0];
                &&& (sent_denom_available matches Ok(a) && sent.amount_of() <= a
                    && p.pre_swap_out_asset_amount == Some((a - sent.amount_of()) as u128))
                &&& p.response.messages@.len() == 1
                &&& (m0 matches Msg::Execute {
                    contract,
                    call: Call::PostSwapAction {
                        min_asset: m,
                        timeout_timestamp: t,
                        post_swap_action: pa,
                        exact_out: x,
                    },
                    funds: f,
                } && contract == contract_address && f@.len() == 0 && !x && t
                    == memo.timeout_timestamp && memo.post_swap_action == Some(
                    Ok::<Vec<u8>, ContractError>(pa),
                ) && m.denom_of() == sent.denom_of() && (m is Cw20) == sent_denom_is_address
                    && spec_parse_unsigned(memo.minimum_receive@, u128::MAX as int) == Some(
                    m.amount_of() as int,
                ))
            })
        }),
{
    lemma_parse_unsigned_range(memo.minimum_receive@, u128::MAX as int);
}


/// The fee of an affiliate on `amount`: its basis points of it, rounded down.
pub open spec fn basis_points_fee(amount: u128, affiliate: Affiliate) -> int {
    amount * affiliate.basis_points_fee / 10000
}

/// Whether `m` pays `affiliate` its fee on the minimum asset, in the minimum asset's
/// denomination (a token when that denomination is an address).
pub open spec fn pays_affiliate(
    m: Msg,
    min_asset: Asset,
    denom_is_address: bool,
    affiliate: Affiliate,
) -> bool {
    m == Msg::Transfer {
        asset: Asset::from_parts(
            min_asset.denom_string(),
            denom_is_address,
            basis_points_fee(min_asset.amount_of(), affiliate) as u128,
        ),
        recipient: affiliate.address,
    }
}

/// The transfers that pay the affiliates pay each affiliate whose fee is not zero its fee,
/// and nothing else: each of them pays one such affiliate, and there are no more of them
/// than affiliates.
pub proof fn law_affiliates_paid_their_basis_points(
    min_asset: Asset,
    denom_is_address: bool,
    affs: Seq<Affiliate>,
)
    ensures
        forall|i: int|
            0 <= i < affs.len() && basis_points_fee(min_asset.amount_of(), #[trigger] affs[i]) > 0
                ==> exists|k: int|
                0 <= k < affiliate_msgs(min_asset, denom_is_address, affs).len() && pays_affiliate(
                    #[trigger] affiliate_msgs(min_asset, denom_is_address, affs)[k],
                    min_asset,
                    denom_is_address,
                    affs[i],
                ),
        forall|k: int|
            0 <= k < affiliate_msgs(min_asset, denom_is_address, affs).len() ==> exists|i: int|
                0 <= i < affs.len() && basis_points_fee(min_asset.amount_of(), #[trigger] affs[i])
                    > 0 && pays_affiliate(
                    #[trigger] affiliate_msgs(min_asset, denom_is_address, affs)[k],
                    min_asset,
                    denom_is_address,
                    affs[i],
                ),
        affiliate_msgs(min_asset, denom_is_address, affs).len() <= affs.len(),
    decreases affs.len(),
{
    if affs.len() > 0 {
        reveal(fee_of);
        let amount = min_asset.amount_of();
        let msgs = affiliate_msgs(min_asset, denom_is_address, affs);
        let prev = affs.drop_last();
        law_affiliates_paid_their_basis_points(min_asset, denom_is_address, prev);
        let pm = affiliate_msgs(min_asset, denom_is_address, prev);
        let last = affs.last();
        let n = affs.len() - 1;
        assert(fee_of(amount, last.basis_points_fee) == basis_points_fee(amount, last));
        assert(forall|k: int| 0 <= k < pm.len() ==> msgs[k] == pm[k]);
        if basis_points_fee(amount, last) > 0 {
            assert(msgs.len() == pm.len() + 1);
            assert(pays_affiliate(msgs[pm.len() as int], min_asset, denom_is_address, last));
        } else {
            assert(msgs.len() == pm.len());
        }
        assert forall|i: int|
            0 <= i < affs.len() && basis_points_fee(amount, #[trigger] affs[i]) > 0 implies exists|
            k: int,
        | 0 <= k < msgs.len() && pays_affiliate(
            #[trigger] msgs[k],
            min_asset,
            denom_is_address,
            affs[i],
        ) by {
            if i < n {
                assert(prev[i] == affs[i]);
                let k = choose|k: int|
                    0 <= k < pm.len() && pays_affiliate(
                        #[trigger] pm[k],
                        min_asset,
                        denom_is_address,
                        prev[i],
                    );
                assert(msgs[k] == pm[k]);
            } else {
                assert(affs[i] == last);
                let k = pm.len() as int;
                assert(pays_affiliate(msgs[k], min_asset, denom_is_address, affs[i]));
            }
        }
        assert forall|k: int| 0 <= k < msgs.len() implies exists|i: int|
            0 <= i < affs.len() && basis_points_fee(amount, #[trigger] affs[i]) > 0
                && pays_affiliate(#[trigger] msgs[k], min_asset, denom_is_address, affs[i]) by {
            if k < pm.len() {
                assert(msgs[k] == pm[k]);
                let i = choose|i: int|
                    0 <= i < prev.len() && basis_points_fee(amount, #[trigger] prev[i]) > 0
                        && pays_affiliate(#[trigger] pm[k], min_asset, denom_is_address, prev[i]);
                assert(affs[i] == prev[i]);
            } else {
                assert(affs[n] == last);
                assert(basis_points_fee(amount, affs[n]) > 0);
                assert(pays_affiliate(msgs[k], min_asset, denom_is_address, affs[n]));
            }
        }
    }
}

} // verus!
