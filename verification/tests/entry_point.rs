use universal_swap::action::{Action, PostSwapAction};
use universal_swap::admin::{
    execute_update_config, execute_withdraw_asset, AddressUpdate, SwapVenueEntry, SwapVenueUpdate,
};
use universal_swap::asset::{one_coin, Asset, Coin, Cw20Coin};
use universal_swap::error::{ContractError, Overflow, OverflowOperation, PaymentError, SkipError, StdError};
use universal_swap::post_swap::execute_post_swap_action;
use universal_swap::response::{AttrValue, Attribute, Call, Msg};
use universal_swap::swap::{
    match_routes_to_amount, validate_swap_operations, Affiliate, Route, SmartSwapExactAssetIn,
    Swap, SwapExactAssetIn, SwapExactAssetOut, SwapOperation,
};
use universal_swap::swap_and_action::{
    execute_swap_and_action, fee_swap_quote_request, reaches_route_adjustment, receive_cw20,
    verify_and_create_fee_swap_msg,
};
use universal_swap::user_swap::{
    execute_user_swap, finish_user_swap_exact_out, verify_and_calculate_affiliate_fee_amount,
    UserSwapStep,
};

fn s(x: &str) -> String {
    x.to_string()
}

fn coin(denom: &str, amount: u128) -> Coin {
    Coin { denom: s(denom), amount }
}

fn native(denom: &str, amount: u128) -> Asset {
    Asset::Native(coin(denom, amount))
}

fn token(address: &str, amount: u128) -> Asset {
    Asset::Cw20(Cw20Coin { address: s(address), amount })
}

fn op(denom_in: &str, denom_out: &str) -> SwapOperation {
    SwapOperation { pool: s("pool"), denom_in: s(denom_in), denom_out: s(denom_out), interface: None }
}

fn attrs(a: &[Attribute]) -> Vec<(String, String)> {
    a.iter()
        .map(|x| {
            let v = match &x.value {
                AttrValue::Text(t) => t.clone(),
                AttrValue::Amount(n) => n.to_string(),
            };
            (x.key.clone(), v)
        })
        .collect()
}

fn pairs(p: &[(&str, &str)]) -> Vec<(String, String)> {
    p.iter().map(|(k, v)| (s(k), s(v))).collect()
}

fn affiliate(bps: u128, address: &str) -> Affiliate {
    Affiliate { basis_points_fee: bps, address: s(address) }
}

#[test]
fn cw20_hook_sends_the_token_of_the_caller() {
    assert_eq!(receive_cw20(&s("orai1token"), 500), token("orai1token", 500));
}

#[test]
fn one_coin_rules() {
    assert_eq!(one_coin(&vec![]), Err(PaymentError::NoFunds));
    assert_eq!(one_coin(&vec![coin("orai", 0)]), Err(PaymentError::NoFunds));
    assert_eq!(one_coin(&vec![coin("orai", 3)]), Ok(coin("orai", 3)));
    assert_eq!(one_coin(&vec![coin("orai", 3), coin("atom", 1)]), Err(PaymentError::MultipleDenoms));
}

#[test]
fn asset_add_and_sub_are_checked() {
    let mut a = native("orai", 10);
    assert_eq!(a.add(5), Ok(()));
    assert_eq!(a, native("orai", 15));
    assert_eq!(a.sub(20), Err(SkipError::Overflow(Overflow { operation: OverflowOperation::Sub, operand1: 15, operand2: 20 })));
    assert_eq!(a, native("orai", 15));
    let mut t = token("orai1t", u128::MAX);
    assert_eq!(t.add(1), Err(SkipError::Overflow(Overflow { operation: OverflowOperation::Add, operand1: u128::MAX, operand2: 1 })));
    assert_eq!(Asset::new(&s("orai1t"), true, 4), token("orai1t", 4));
    assert_eq!(Asset::new(&s("orai"), false, 4), native("orai", 4));
}

#[test]
fn swap_operations_must_chain_the_denoms() {
    let a = s("a");
    let c = s("c");
    assert_eq!(validate_swap_operations(&vec![], &a, &c), Err(SkipError::SwapOperationsEmpty));
    assert_eq!(validate_swap_operations(&vec![op("x", "c")], &a, &c), Err(SkipError::SwapOperationsAssetInDenomMismatch));
    assert_eq!(validate_swap_operations(&vec![op("a", "b")], &a, &c), Err(SkipError::SwapOperationsAssetOutDenomMismatch));
    assert_eq!(validate_swap_operations(&vec![op("a", "b"), op("b", "c")], &a, &c), Ok(()));
}

#[test]
fn withdraw_goes_to_receiver_or_sender() {
    let r = execute_withdraw_asset(&s("owner"), Ok(Some(s("owner"))), native("orai", 7), None).unwrap();
    assert_eq!(r.messages, vec![Msg::Transfer { asset: native("orai", 7), recipient: s("owner") }]);
    assert_eq!(attrs(&r.attributes), pairs(&[("action", "withdraw_asset")]));
    let r = execute_withdraw_asset(&s("owner"), Ok(Some(s("owner"))), token("orai1t", 7), Some(s("bob"))).unwrap();
    assert_eq!(r.messages, vec![Msg::Transfer { asset: token("orai1t", 7), recipient: s("bob") }]);
}

#[test]
fn withdraw_only_by_admin() {
    assert_eq!(execute_withdraw_asset(&s("eve"), Ok(Some(s("owner"))), native("orai", 7), None), Err(ContractError::NotAdmin));
    assert_eq!(execute_withdraw_asset(&s("eve"), Ok(None), native("orai", 7), None), Err(ContractError::NotAdmin));
    assert_eq!(execute_withdraw_asset(&s("eve"), Err(ContractError::Std(StdError::Other(s("parse")))), native("orai", 7), None), Err(ContractError::Std(StdError::Other(s("parse")))));
}

fn venue(name: &str, addr: &str, ok: bool, stored: bool) -> SwapVenueUpdate {
    SwapVenueUpdate {
        name: s(name),
        adapter_contract_address: s(addr),
        address_check: if ok { Ok(()) } else { Err(ContractError::Std(StdError::Other(s("invalid address")))) },
        name_stored: stored,
    }
}

#[test]
fn update_config_stores_and_blocks_adapters() {
    let u = execute_update_config(
        &s("owner"),
        Ok(Some(s("owner"))),
        Some(s("new_owner")),
        Some(vec![venue("oraidex", "orai1a", true, false), venue("osmosis", "orai1b", true, false)]),
        Some(AddressUpdate { address: s("orai1ibc"), address_check: Ok(()) }),
        Some(AddressUpdate { address: s("orai1wasm"), address_check: Ok(()) }),
    )
    .unwrap();
    assert_eq!(
        u.swap_venues,
        vec![
            SwapVenueEntry { name: s("oraidex"), address: s("orai1a") },
            SwapVenueEntry { name: s("osmosis"), address: s("orai1b") },
        ]
    );
    assert_eq!(u.blocked, vec![s("orai1a"), s("orai1b"), s("orai1ibc"), s("orai1wasm")]);
    assert_eq!(u.ibc_transfer_contract_address, Some(s("orai1ibc")));
    assert_eq!(u.ibc_wasm_contract_address, Some(s("orai1wasm")));
    assert_eq!(u.owner, Some(s("new_owner")));
    assert!(u.response.messages.is_empty());
    assert_eq!(
        attrs(&u.response.attributes),
        pairs(&[
            ("action", "update_config"),
            ("action", "add_swap_venue"),
            ("name", "oraidex"),
            ("contract_address", "orai1a"),
            ("action", "add_swap_venue"),
            ("name", "osmosis"),
            ("contract_address", "orai1b"),
            ("action", "add_ibc_transfer_adapter"),
            ("contract_address", "orai1ibc"),
            ("action", "add_ibc_wasm_transfer_adapter"),
            ("contract_address", "orai1wasm"),
            ("new_owner", "new_owner"),
        ])
    );
}

#[test]
fn update_config_refuses_duplicate_venue_names() {
    let r = execute_update_config(&s("owner"), Ok(Some(s("owner"))), None, Some(vec![venue("oraidex", "orai1a", true, true)]), None, None);
    assert_eq!(r, Err(ContractError::DuplicateSwapVenueName));
    let r = execute_update_config(
        &s("owner"),
        Ok(Some(s("owner"))),
        None,
        Some(vec![venue("oraidex", "orai1a", true, false), venue("oraidex", "orai1b", true, false)]),
        None,
        None,
    );
    assert_eq!(r, Err(ContractError::DuplicateSwapVenueName));
}

#[test]
fn update_config_errors_in_order() {
    let r = execute_update_config(
        &s("owner"),
        Ok(Some(s("owner"))),
        None,
        Some(vec![venue("a", "bad", false, true)]),
        None,
        None,
    );
    assert_eq!(r, Err(ContractError::Std(StdError::Other(s("invalid address")))));
    let r = execute_update_config(
        &s("owner"),
        Ok(Some(s("owner"))),
        None,
        None,
        Some(AddressUpdate { address: s("bad"), address_check: Err(ContractError::Std(StdError::Other(s("ibc")))) }),
        Some(AddressUpdate { address: s("bad"), address_check: Err(ContractError::Std(StdError::Other(s("wasm")))) }),
    );
    assert_eq!(r, Err(ContractError::Std(StdError::Other(s("ibc")))));
    let r = execute_update_config(&s("eve"), Ok(Some(s("owner"))), None, None, None, None);
    assert_eq!(r, Err(ContractError::NotAdmin));
}

#[test]
fn update_config_with_nothing_to_do() {
    let u = execute_update_config(&s("owner"), Ok(Some(s("owner"))), None, None, None, None).unwrap();
    assert!(u.swap_venues.is_empty() && u.blocked.is_empty() && u.owner.is_none());
    assert_eq!(attrs(&u.response.attributes), pairs(&[("action", "update_config")]));
}

#[test]
fn affiliate_fee_is_basis_points_of_min_amount() {
    let f = verify_and_calculate_affiliate_fee_amount(&native("usdt", 1000), &affiliate(50, "aff"), Ok(()));
    assert_eq!(f, Ok(5));
    let f = verify_and_calculate_affiliate_fee_amount(&native("usdt", 1999), &affiliate(5, "aff"), Ok(()));
    assert_eq!(f, Ok(0));
    let f = verify_and_calculate_affiliate_fee_amount(&native("usdt", u128::MAX), &affiliate(10000, "aff"), Ok(()));
    assert_eq!(f, Ok(u128::MAX));
    let f = verify_and_calculate_affiliate_fee_amount(&native("usdt", 1000), &affiliate(50, "x"), Err(ContractError::Std(StdError::Other(s("bad")))));
    assert_eq!(f, Err(ContractError::Std(StdError::Other(s("bad")))));
}

fn exact_in() -> Swap {
    Swap::SwapExactAssetIn(SwapExactAssetIn { swap_venue_name: s("oraidex"), operations: vec![op("orai", "usdt")] })
}

#[test]
fn user_swap_only_from_the_contract() {
    let r = execute_user_swap(&s("eve"), &s("me"), exact_in(), native("usdt", 100), native("orai", 10), vec![], vec![], false, Ok(s("adapter")));
    assert!(matches!(r, Err(ContractError::Unauthorized)));
}

#[test]
fn user_swap_exact_in_then_affiliates() {
    let r = execute_user_swap(
        &s("me"),
        &s("me"),
        exact_in(),
        native("usdt", 1000),
        native("orai", 10),
        vec![affiliate(100, "aff1"), affiliate(1, "aff0"), affiliate(250, "aff2")],
        vec![Ok(()), Ok(()), Ok(())],
        false,
        Ok(s("adapter")),
    );
    let r = match r {
        Ok(UserSwapStep::Done(r)) => r,
        _ => panic!("expected a finished swap"),
    };
    assert_eq!(
        r.messages,
        vec![
            Msg::SendWithCall {
                asset: native("orai", 10),
                contract: s("adapter"),
                call: Call::AdapterSwapExactIn(SwapExactAssetIn { swap_venue_name: s("oraidex"), operations: vec![op("orai", "usdt")] }),
            },
            Msg::Transfer { asset: native("usdt", 10), recipient: s("aff1") },
            Msg::Transfer { asset: native("usdt", 25), recipient: s("aff2") },
        ]
    );
    assert_eq!(
        attrs(&r.attributes),
        pairs(&[
            ("action", "execute_user_swap"),
            ("denom_in", "orai"),
            ("denom_out", "usdt"),
            ("action", "dispatch_user_swap_exact_asset_in"),
            ("action", "dispatch_affiliate_fee_bank_send"),
            ("address", "aff1"),
            ("amount", "10"),
            ("action", "dispatch_affiliate_fee_bank_send"),
            ("address", "aff2"),
            ("amount", "25"),
        ])
    );
}

#[test]
fn user_swap_errors() {
    let bad_ops = Swap::SwapExactAssetIn(SwapExactAssetIn { swap_venue_name: s("v"), operations: vec![op("atom", "usdt")] });
    let r = execute_user_swap(&s("me"), &s("me"), bad_ops, native("usdt", 100), native("orai", 10), vec![], vec![], false, Ok(s("a")));
    assert!(matches!(r, Err(ContractError::Skip(SkipError::SwapOperationsAssetInDenomMismatch))));
    let r = execute_user_swap(&s("me"), &s("me"), exact_in(), native("usdt", 100), native("orai", 10), vec![], vec![], false, Err(ContractError::Std(StdError::Other(s("no venue")))));
    assert!(matches!(r, Err(ContractError::Std(_))));
    let r = execute_user_swap(
        &s("me"),
        &s("me"),
        exact_in(),
        native("usdt", 100),
        native("orai", 10),
        vec![affiliate(1, "a"), affiliate(1, "bad")],
        vec![Ok(()), Err(ContractError::Std(StdError::Other(s("bad affiliate"))))],
        false,
        Ok(s("a")),
    );
    assert!(matches!(r, Err(ContractError::Std(StdError::Other(m))) if m == "bad affiliate"));
    let r = execute_user_swap(
        &s("me"),
        &s("me"),
        exact_in(),
        native("usdt", u128::MAX),
        native("orai", 10),
        vec![affiliate(10000, "a"), affiliate(10000, "b")],
        vec![Ok(()), Ok(())],
        false,
        Ok(s("a")),
    );
    assert!(matches!(r, Err(ContractError::Overflow(Overflow { operation: OverflowOperation::Add, .. }))));
}

fn exact_out(refund: Option<&str>) -> SwapExactAssetOut {
    SwapExactAssetOut { swap_venue_name: s("oraidex"), operations: vec![op("orai", "usdt")], refund_address: refund.map(s) }
}

#[test]
fn user_swap_exact_out_quotes_min_plus_fees_and_refunds() {
    let r = execute_user_swap(
        &s("me"),
        &s("me"),
        Swap::SwapExactAssetOut(exact_out(Some("refund"))),
        native("usdt", 1000),
        native("orai", 100),
        vec![affiliate(100, "aff")],
        vec![Ok(())],
        true,
        Ok(s("adapter")),
    );
    let p = match r {
        Ok(UserSwapStep::NeedsAssetIn(p)) => p,
        _ => panic!("expected a quote request"),
    };
    assert_eq!(p.asset_out, native("usdt", 1010));
    assert_eq!(p.fees.total, 10);
    let r = finish_user_swap_exact_out(p, Ok(native("orai", 60)), Ok(())).unwrap();
    assert_eq!(
        r.messages,
        vec![
            Msg::Transfer { asset: native("orai", 40), recipient: s("refund") },
            Msg::SendWithCall { asset: native("orai", 60), contract: s("adapter"), call: Call::AdapterSwapExactOut(exact_out(Some("refund"))) },
            Msg::Transfer { asset: token("usdt", 10), recipient: s("aff") },
        ]
    );
    assert_eq!(
        attrs(&r.attributes),
        pairs(&[
            ("action", "execute_user_swap"),
            ("denom_in", "orai"),
            ("denom_out", "usdt"),
            ("action", "dispatch_refund"),
            ("address", "refund"),
            ("amount", "40"),
            ("action", "dispatch_user_swap_exact_asset_out"),
            ("action", "dispatch_affiliate_fee_bank_send"),
            ("address", "aff"),
            ("amount", "10"),
        ])
    );
}

fn pending(refund: Option<&str>) -> universal_swap::user_swap::PendingExactOut {
    match execute_user_swap(&s("me"), &s("me"), Swap::SwapExactAssetOut(exact_out(refund)), native("usdt", 50), native("orai", 100), vec![], vec![], false, Ok(s("adapter"))) {
        Ok(UserSwapStep::NeedsAssetIn(p)) => p,
        _ => panic!("expected a quote request"),
    }
}

#[test]
fn user_swap_exact_out_finish_cases() {
    let r = finish_user_swap_exact_out(pending(None), Ok(native("orai", 100)), Ok(())).unwrap();
    assert_eq!(r.messages.len(), 1);
    assert_eq!(finish_user_swap_exact_out(pending(None), Ok(native("orai", 99)), Ok(())), Err(ContractError::NoRefundAddress));
    assert_eq!(finish_user_swap_exact_out(pending(None), Ok(native("atom", 10)), Ok(())), Err(ContractError::UserSwapAssetInDenomMismatch));
    assert_eq!(
        finish_user_swap_exact_out(pending(None), Ok(native("orai", 101)), Ok(())),
        Err(ContractError::Skip(SkipError::Overflow(Overflow { operation: OverflowOperation::Sub, operand1: 100, operand2: 101 })))
    );
    assert_eq!(finish_user_swap_exact_out(pending(Some("r")), Ok(native("orai", 1)), Err(ContractError::Std(StdError::Other(s("bad refund"))))), Err(ContractError::Std(StdError::Other(s("bad refund")))));
    assert_eq!(finish_user_swap_exact_out(pending(Some("r")), Err(ContractError::Std(StdError::Other(s("query")))), Ok(())), Err(ContractError::Std(StdError::Other(s("query")))));
}

fn route(amount: u128, denom_in: &str) -> Route {
    Route { offer_asset: native(denom_in, amount), operations: vec![op(denom_in, "usdt")] }
}

#[test]
fn user_swap_split_routes() {
    let swap = Swap::SmartSwapExactAssetIn(SmartSwapExactAssetIn { swap_venue_name: s("v"), routes: vec![route(4, "orai"), route(6, "orai")] });
    let r = match execute_user_swap(&s("me"), &s("me"), swap, native("usdt", 1), native("orai", 10), vec![], vec![], false, Ok(s("adapter"))) {
        Ok(UserSwapStep::Done(r)) => r,
        _ => panic!("expected a finished swap"),
    };
    assert_eq!(
        r.messages,
        vec![
            Msg::SendWithCall { asset: native("orai", 4), contract: s("adapter"), call: Call::AdapterSwap { operations: vec![op("orai", "usdt")] } },
            Msg::SendWithCall { asset: native("orai", 6), contract: s("adapter"), call: Call::AdapterSwap { operations: vec![op("orai", "usdt")] } },
        ]
    );
    let swap = Swap::SmartSwapExactAssetIn(SmartSwapExactAssetIn { swap_venue_name: s("v"), routes: vec![route(4, "orai"), route(6, "atom")] });
    let r = execute_user_swap(&s("me"), &s("me"), swap, native("usdt", 1), native("orai", 10), vec![], vec![], false, Ok(s("adapter")));
    assert!(matches!(r, Err(ContractError::Skip(SkipError::SwapOperationsAssetInDenomMismatch))));
}

#[test]
fn routes_are_matched_to_the_remaining_amount() {
    let mut sw = SmartSwapExactAssetIn { swap_venue_name: s("v"), routes: vec![route(5, "orai"), route(7, "orai"), route(7, "orai")] };
    assert_eq!(match_routes_to_amount(&mut sw, 25), Ok(()));
    // the last of the largest routes takes the shortfall
    assert_eq!(sw.routes, vec![route(5, "orai"), route(7, "orai"), route(13, "orai")]);
    assert_eq!(match_routes_to_amount(&mut sw, 20), Ok(()));
    assert_eq!(sw.routes, vec![route(5, "orai"), route(7, "orai"), route(8, "orai")]);
    assert_eq!(
        match_routes_to_amount(&mut sw, 5),
        Err(ContractError::Skip(SkipError::Overflow(Overflow { operation: OverflowOperation::Sub, operand1: 8, operand2: 15 })))
    );
    assert_eq!(sw.routes, vec![route(5, "orai"), route(7, "orai"), route(8, "orai")]);
    let mut empty = SmartSwapExactAssetIn { swap_venue_name: s("v"), routes: vec![] };
    assert_eq!(match_routes_to_amount(&mut empty, 5), Err(ContractError::Skip(SkipError::RoutesEmpty)));
}

#[test]
fn post_swap_transfer_of_what_was_received() {
    let r = execute_post_swap_action(
        &s("me"), &s("me"), native("usdt", 100), 9, Action::Transfer { to_address: s("bob") }, false,
        Ok(20), Ok(150), false, Ok(()), Err(ContractError::Unauthorized), false,
    )
    .unwrap();
    assert_eq!(r.messages, vec![Msg::Transfer { asset: native("usdt", 130), recipient: s("bob") }]);
    assert_eq!(
        attrs(&r.attributes),
        pairs(&[
            ("action", "execute_post_swap_action"),
            ("post_swap_action_amount_out", "130"),
            ("post_swap_action_denom_out", "usdt"),
            ("action", "dispatch_post_swap_transfer"),
        ])
    );
}

#[test]
fn post_swap_exact_out_hands_on_min_asset() {
    let r = execute_post_swap_action(
        &s("me"), &s("me"), native("usdt", 100), 9, Action::Transfer { to_address: s("bob") }, true,
        Ok(20), Ok(150), false, Ok(()), Ok(s("x")), false,
    )
    .unwrap();
    assert_eq!(r.messages, vec![Msg::Transfer { asset: native("usdt", 100), recipient: s("bob") }]);
}

#[test]
fn post_swap_errors() {
    let t = || Action::Transfer { to_address: s("bob") };
    let e = execute_post_swap_action(&s("eve"), &s("me"), native("usdt", 1), 9, t(), false, Ok(0), Ok(5), false, Ok(()), Ok(s("x")), false);
    assert_eq!(e, Err(ContractError::Unauthorized));
    let e = execute_post_swap_action(&s("me"), &s("me"), native("usdt", 100), 9, t(), false, Ok(20), Ok(119), false, Ok(()), Ok(s("x")), false);
    assert_eq!(e, Err(ContractError::ReceivedLessAssetFromSwapsThanMinAsset));
    let e = execute_post_swap_action(&s("me"), &s("me"), native("usdt", 1), 9, t(), false, Ok(20), Ok(10), false, Ok(()), Ok(s("x")), false);
    assert_eq!(e, Err(ContractError::Overflow(Overflow { operation: OverflowOperation::Sub, operand1: 10, operand2: 20 })));
    let ibc = Action::IbcTransfer { ibc_info: vec![7, 7], fee_coin: None, fee_swap: None };
    let e = execute_post_swap_action(&s("me"), &s("me"), native("orai1t", 1), 9, ibc, false, Ok(0), Ok(10), true, Ok(()), Ok(s("x")), false);
    assert_eq!(e, Err(ContractError::NonNativeIbcTransfer));
    let call = Action::ContractCall { contract_address: s("orai1adapter"), msg: vec![1, 2] };
    let e = execute_post_swap_action(&s("me"), &s("me"), native("usdt", 1), 9, call, false, Ok(0), Ok(10), false, Ok(()), Ok(s("x")), true);
    assert_eq!(e, Err(ContractError::ContractCallAddressBlocked));
}

#[test]
fn post_swap_ibc_and_contract_calls() {
    let ibc = Action::IbcTransfer { ibc_info: vec![7, 7], fee_coin: None, fee_swap: None };
    let r = execute_post_swap_action(&s("me"), &s("me"), native("usdt", 5), 77, ibc, false, Ok(0), Ok(10), false, Ok(()), Ok(s("ibc_adapter")), false).unwrap();
    assert_eq!(
        r.messages,
        vec![Msg::Execute { contract: s("ibc_adapter"), call: Call::IbcTransfer { ibc_info: vec![7, 7], coin: coin("usdt", 10), timeout_timestamp: 77 }, funds: vec![coin("usdt", 10)] }]
    );
    let call = Action::ContractCall { contract_address: s("orai1dapp"), msg: vec![1, 2] };
    let r = execute_post_swap_action(&s("me"), &s("me"), native("usdt", 5), 77, call, false, Ok(0), Ok(10), false, Ok(()), Ok(s("x")), false).unwrap();
    assert_eq!(r.messages, vec![Msg::SendWithCall { asset: native("usdt", 10), contract: s("orai1dapp"), call: Call::Raw(vec![1, 2]) }]);
    let r = execute_post_swap_action(&s("me"), &s("me"), token("orai1t", 5), 77, Action::IbcWasmTransfer { ibc_wasm_info: vec![9] }, false, Ok(0), Ok(10), true, Err(ContractError::Unauthorized), Ok(s("wasm_adapter")), false).unwrap();
    assert_eq!(
        r.messages,
        vec![Msg::Cw20Send { token: s("orai1t"), contract: s("wasm_adapter"), amount: 10, call: Call::IbcWasmTransfer { ibc_wasm_info: vec![9], asset: token("orai1t", 10) } }]
    );
}

fn fee_swap() -> SwapExactAssetOut {
    SwapExactAssetOut { swap_venue_name: s("oraidex"), operations: vec![op("orai", "uatom")], refund_address: None }
}

#[test]
fn fee_swap_takes_its_cost_off_the_remaining_asset() {
    let mut rem = native("orai", 100);
    let m = verify_and_create_fee_swap_msg(fee_swap(), &mut rem, &coin("uatom", 3), Ok(s("adapter")), Ok(native("orai", 30))).unwrap();
    assert_eq!(rem, native("orai", 70));
    assert_eq!(m, Msg::SendWithCall { asset: native("orai", 30), contract: s("adapter"), call: Call::AdapterSwapExactOut(fee_swap()) });
    let mut rem = native("orai", 10);
    let e = verify_and_create_fee_swap_msg(fee_swap(), &mut rem, &coin("uatom", 3), Ok(s("adapter")), Ok(native("orai", 30)));
    assert!(matches!(e, Err(ContractError::Skip(SkipError::Overflow(_)))));
    assert_eq!(rem, native("orai", 10));
    let e = verify_and_create_fee_swap_msg(fee_swap(), &mut rem, &coin("uatom", 3), Ok(s("adapter")), Ok(native("usdt", 3)));
    assert_eq!(e, Err(ContractError::FeeSwapAssetInDenomMismatch));
}

fn swap_and_action(
    sent: Option<Asset>,
    funds: Vec<Coin>,
    user_swap: Swap,
    action: Action,
    block: u64,
    fee_quote: Result<Asset, ContractError>,
) -> Result<universal_swap::swap_and_action::SwapAndActionPlan, ContractError> {
    execute_swap_and_action(
        &s("me"), block, sent, Ok(()), &funds, user_swap, native("usdt", 90), 1000,
        PostSwapAction { action, encoded: vec![5, 5] }, vec![],
        Ok(33), Ok(s("fee_adapter")), fee_quote, Ok(s("ibc_adapter")),
    )
}

#[test]
fn swap_and_action_dispatches_swap_then_action() {
    let p = swap_and_action(None, vec![coin("orai", 100)], exact_in(), Action::Transfer { to_address: s("bob") }, 5, Err(ContractError::Unauthorized)).unwrap();
    assert_eq!(p.pre_swap_out_asset_amount, 33);
    assert_eq!(
        p.response.messages,
        vec![
            Msg::Execute {
                contract: s("me"),
                call: Call::UserSwap { swap: exact_in(), min_asset: native("usdt", 90), remaining_asset: native("orai", 100), affiliates: vec![] },
                funds: vec![],
            },
            Msg::Execute {
                contract: s("me"),
                call: Call::PostSwapAction { min_asset: native("usdt", 90), timeout_timestamp: 1000, post_swap_action: vec![5, 5], exact_out: false },
                funds: vec![],
            },
        ]
    );
    assert_eq!(
        attrs(&p.response.attributes),
        pairs(&[("action", "execute_swap_and_action"), ("action", "dispatch_user_swap"), ("action", "dispatch_post_swap_action")])
    );
}

#[test]
fn swap_and_action_refuses_late_or_unpaid_calls() {
    let t = || Action::Transfer { to_address: s("bob") };
    assert!(matches!(swap_and_action(None, vec![coin("orai", 100)], exact_in(), t(), 1001, Err(ContractError::Unauthorized)), Err(ContractError::Timeout)));
    assert!(matches!(swap_and_action(None, vec![], exact_in(), t(), 5, Err(ContractError::Unauthorized)), Err(ContractError::Payment(PaymentError::NoFunds))));
    assert!(matches!(
        swap_and_action(None, vec![coin("orai", 1), coin("atom", 1)], exact_in(), t(), 5, Err(ContractError::Unauthorized)),
        Err(ContractError::Payment(PaymentError::MultipleDenoms))
    ));
}

#[test]
fn swap_and_action_pays_ibc_fees_from_the_sent_asset() {
    let action = Action::IbcTransfer { ibc_info: vec![7, 7], fee_coin: Some(Ok(coin("orai", 7))), fee_swap: None };
    let p = swap_and_action(Some(native("orai", 100)), vec![coin("orai", 100)], exact_in(), action, 5, Err(ContractError::Unauthorized)).unwrap();
    assert_eq!(p.response.messages[0], Msg::BankSend { to_address: s("ibc_adapter"), coin: coin("orai", 7) });
    match &p.response.messages[1] {
        Msg::Execute { call: Call::UserSwap { remaining_asset, .. }, .. } => assert_eq!(*remaining_asset, native("orai", 93)),
        other => panic!("unexpected {:?}", other),
    }
    assert_eq!(
        attrs(&p.response.attributes),
        pairs(&[
            ("action", "execute_swap_and_action"),
            ("action", "dispatch_ibc_fee_bank_send"),
            ("action", "dispatch_user_swap"),
            ("action", "dispatch_post_swap_action"),
        ])
    );
    let action = Action::IbcTransfer { ibc_info: vec![7, 7], fee_coin: Some(Ok(coin("uatom", 7))), fee_swap: None };
    let e = swap_and_action(Some(native("orai", 100)), vec![], exact_in(), action, 5, Err(ContractError::Unauthorized));
    assert!(matches!(e, Err(ContractError::IBCFeeDenomDiffersFromAssetReceived)));
}

#[test]
fn swap_and_action_fee_swap() {
    let action = Action::IbcTransfer { ibc_info: vec![7, 7], fee_coin: Some(Ok(coin("uatom", 7))), fee_swap: Some(fee_swap()) };
    let p = swap_and_action(Some(native("orai", 100)), vec![], exact_in(), action, 5, Ok(native("orai", 20))).unwrap();
    assert_eq!(p.response.messages.len(), 4);
    assert_eq!(p.response.messages[0], Msg::SendWithCall { asset: native("orai", 20), contract: s("fee_adapter"), call: Call::AdapterSwapExactOut(fee_swap()) });
    assert_eq!(p.response.messages[1], Msg::BankSend { to_address: s("ibc_adapter"), coin: coin("uatom", 7) });
    match &p.response.messages[2] {
        Msg::Execute { call: Call::UserSwap { remaining_asset, .. }, .. } => assert_eq!(*remaining_asset, native("orai", 80)),
        other => panic!("unexpected {:?}", other),
    }
    let action = Action::IbcTransfer { ibc_info: vec![7, 7], fee_coin: None, fee_swap: Some(fee_swap()) };
    let e = swap_and_action(Some(native("orai", 100)), vec![], exact_in(), action, 5, Ok(native("orai", 20)));
    assert!(matches!(e, Err(ContractError::FeeSwapWithoutIbcFees)));
}

#[test]
fn swap_and_action_adjusts_split_routes() {
    let smart = Swap::SmartSwapExactAssetIn(SmartSwapExactAssetIn { swap_venue_name: s("v"), routes: vec![route(30, "orai"), route(50, "orai")] });
    let p = swap_and_action(Some(native("orai", 100)), vec![], smart, Action::Transfer { to_address: s("b") }, 5, Err(ContractError::Unauthorized)).unwrap();
    match &p.response.messages[0] {
        Msg::Execute { call: Call::UserSwap { swap: Swap::SmartSwapExactAssetIn(sw), .. }, .. } => {
            assert_eq!(sw.routes, vec![route(30, "orai"), route(70, "orai")])
        }
        other => panic!("unexpected {:?}", other),
    }
    let smart = Swap::SmartSwapExactAssetIn(SmartSwapExactAssetIn { swap_venue_name: s("v"), routes: vec![] });
    let e = swap_and_action(Some(native("orai", 100)), vec![], smart, Action::Transfer { to_address: s("b") }, 5, Err(ContractError::Unauthorized));
    assert!(matches!(e, Err(ContractError::Skip(SkipError::RoutesEmpty))));
}

#[test]
fn swap_and_action_marks_exact_out() {
    let p = swap_and_action(Some(native("orai", 100)), vec![], Swap::SwapExactAssetOut(exact_out(Some("r"))), Action::Transfer { to_address: s("b") }, 5, Err(ContractError::Unauthorized)).unwrap();
    match &p.response.messages[1] {
        Msg::Execute { call: Call::PostSwapAction { exact_out, .. }, .. } => assert!(*exact_out),
        other => panic!("unexpected {:?}", other),
    }
}

#[test]
fn fee_swap_quote_asks_the_venue_adapter_for_the_fee_coin() {
    let action = Action::IbcTransfer { ibc_info: vec![1], fee_coin: Some(Ok(coin("uatom", 7))), fee_swap: Some(fee_swap()) };
    let q = fee_swap_quote_request(&action, &native("orai", 100), &Ok(s("fee_adapter")));
    assert_eq!(q, Some((s("fee_adapter"), native("uatom", 7), &vec![op("orai", "uatom")])));
    assert_eq!(fee_swap_quote_request(&action, &native("usdt", 100), &Ok(s("fee_adapter"))), None);
    assert_eq!(fee_swap_quote_request(&action, &native("orai", 100), &Err(ContractError::Unauthorized)), None);
    let no_fee = Action::IbcTransfer { ibc_info: vec![1], fee_coin: None, fee_swap: Some(fee_swap()) };
    assert_eq!(fee_swap_quote_request(&no_fee, &native("orai", 100), &Ok(s("fee_adapter"))), None);
    let transfer = Action::Transfer { to_address: s("bob") };
    assert_eq!(fee_swap_quote_request(&transfer, &native("orai", 100), &Ok(s("fee_adapter"))), None);
}

#[test]
fn route_adjustment_is_reached_only_past_the_earlier_checks() {
    let t = || Action::Transfer { to_address: s("bob") };
    let reach = |block: u64, sent: Option<Asset>, funds: Vec<Coin>, action: Action, avail: Result<u128, ContractError>| {
        reaches_route_adjustment(block, 1000, sent, Ok(()), &funds, action, &avail, Ok(s("fee_adapter")), Err(ContractError::Unauthorized), Ok(s("ibc_adapter")))
    };
    assert!(reach(5, Some(native("orai", 100)), vec![], t(), Ok(0)));
    assert!(!reach(1001, Some(native("orai", 100)), vec![], t(), Ok(0)));
    assert!(!reach(5, None, vec![], t(), Ok(0)));
    assert!(!reach(5, Some(native("orai", 100)), vec![], t(), Err(ContractError::Unauthorized)));
    let fee = Action::IbcTransfer { ibc_info: vec![], fee_coin: Some(Ok(coin("uatom", 7))), fee_swap: None };
    assert!(!reach(5, Some(native("orai", 100)), vec![], fee, Ok(0)));
    let fee = Action::IbcTransfer { ibc_info: vec![], fee_coin: Some(Ok(coin("orai", 7))), fee_swap: None };
    assert!(reach(5, Some(native("orai", 100)), vec![], fee, Ok(0)));
}

#[test]
fn post_swap_action_is_forwarded_as_encoded() {
    let p = swap_and_action(Some(native("orai", 100)), vec![], exact_in(), Action::Transfer { to_address: s("b") }, 5, Err(ContractError::Unauthorized)).unwrap();
    match &p.response.messages[1] {
        Msg::Execute { call: Call::PostSwapAction { post_swap_action, .. }, .. } => assert_eq!(*post_swap_action, vec![5, 5]),
        other => panic!("unexpected {:?}", other),
    }
}
