use universal_swap::asset::{Asset, Coin, Cw20Coin};
use universal_swap::error::{ContractError, Overflow, OverflowOperation, StdError};
use universal_swap::response::{Call, Msg, ReplyOn, SubMsg};
use universal_swap::swap::{Swap, SwapExactAssetIn, SwapOperation};
use universal_swap::universal::{
    convert_user_swap_with_action_to_cosmos_msgs, execute_swap_and_action_with_recover,
    execute_universal_swap, memo_bytes, Memo, MemoSwap, RECOVER_REPLY_ID,
};

fn s(x: &str) -> String {
    x.to_string()
}

fn coin(denom: &str, amount: u128) -> Coin {
    Coin { denom: s(denom), amount }
}

fn native(denom: &str, amount: u128) -> Asset {
    Asset::Native(coin(denom, amount))
}

fn token(address: &str, amount: u128) -> Asset {
    Asset::Cw20(Cw20Coin { address: s(address), amount })
}

fn exact_in() -> SwapExactAssetIn {
    SwapExactAssetIn {
        swap_venue_name: s("oraidex"),
        operations: vec![SwapOperation { pool: s("p"), denom_in: s("orai"), denom_out: s("usdt"), interface: None }],
    }
}

#[test]
fn recover_keeps_funds_and_sent_token() {
    let p = execute_swap_and_action_with_recover(
        &s("me"),
        vec![coin("orai", 1), coin("atom", 2)],
        Some(token("orai1t", 5)),
        Swap::SwapExactAssetIn(exact_in()),
        native("usdt", 3),
        9,
        vec![4, 2],
        vec![],
        s("recover"),
    );
    assert_eq!(p.assets, vec![native("orai", 1), native("atom", 2), token("orai1t", 5)]);
    assert_eq!(p.recovery_addr, s("recover"));
    assert!(p.attributes.is_empty());
    assert_eq!(
        p.sub_messages,
        vec![SubMsg {
            id: RECOVER_REPLY_ID,
            reply_on: ReplyOn::Always,
            msg: Msg::Execute {
            contract: s("me"),
            call: Call::SwapAndAction {
                sent_asset: Some(token("orai1t", 5)),
                user_swap: Swap::SwapExactAssetIn(exact_in()),
                min_asset: native("usdt", 3),
                timeout_timestamp: 9,
                post_swap_action: vec![4, 2],
                affiliates: vec![],
            },
            funds: vec![coin("orai", 1), coin("atom", 2)],
            },
        }]
    );
    assert_eq!(RECOVER_REPLY_ID, 1);
    let p = execute_swap_and_action_with_recover(&s("me"), vec![coin("orai", 1)], Some(native("orai", 1)), Swap::SwapExactAssetIn(exact_in()), native("usdt", 3), 9, vec![4, 2], vec![], s("r"));
    assert_eq!(p.assets, vec![native("orai", 1)]);
}

#[test]
fn memo_bytes_decodes_base64() {
    assert_eq!(memo_bytes("CgQ="), Ok(vec![10, 4]));
    assert!(matches!(memo_bytes("%%%"), Err(ContractError::Std(StdError::InvalidBase64(_)))));
}

fn memo(user_swap: Option<MemoSwap>, post: Option<Result<Vec<u8>, ContractError>>, minimum_receive: &str) -> Memo {
    Memo { user_swap, post_swap_action: post, minimum_receive: s(minimum_receive), timeout_timestamp: 77, recovery_addr: s("recover") }
}

#[test]
fn universal_swap_without_action_sends_back() {
    let p = execute_universal_swap(&s("me"), None, Ok(()), &vec![coin("orai", 10)], Ok(memo(None, None, "1")), Ok(()), Ok(0), false).unwrap();
    assert_eq!(p.response.messages, vec![Msg::Transfer { asset: native("orai", 10), recipient: s("recover") }]);
    assert_eq!(p.pre_swap_out_asset_amount, None);
}

#[test]
fn universal_swap_with_swap_and_action_recovers() {
    let us = MemoSwap::ExactIn { swap: exact_in(), min_asset: Ok(native("usdt", 5)) };
    let p = execute_universal_swap(&s("me"), None, Ok(()), &vec![coin("orai", 10)], Ok(memo(Some(us), Some(Ok(vec![3, 1])), "5")), Ok(()), Ok(0), false).unwrap();
    assert_eq!(
        p.response.messages,
        vec![Msg::Execute {
            contract: s("me"),
            call: Call::SwapAndActionWithRecover {
                sent_asset: Some(native("orai", 10)),
                user_swap: Swap::SwapExactAssetIn(exact_in()),
                min_asset: native("usdt", 5),
                timeout_timestamp: 77,
                post_swap_action: vec![3, 1],
                affiliates: vec![],
                recovery_addr: s("recover"),
            },
            funds: vec![coin("orai", 10)],
        }]
    );
    let us = MemoSwap::ExactIn { swap: exact_in(), min_asset: Ok(native("usdt", 5)) };
    let e = execute_universal_swap(&s("me"), None, Ok(()), &vec![coin("orai", 10)], Ok(memo(Some(us), Some(Ok(vec![3, 1])), "5")), Err(ContractError::Std(StdError::Other(s("bad recover")))), Ok(0), false);
    assert!(matches!(e, Err(ContractError::Std(StdError::Other(m))) if m == "bad recover"));
}

#[test]
fn universal_swap_with_action_only_stores_balance() {
    let p = execute_universal_swap(&s("me"), Some(token("orai1t", 10)), Ok(()), &vec![], Ok(memo(None, Some(Ok(vec![3, 1])), "25")), Ok(()), Ok(14), true).unwrap();
    assert_eq!(p.pre_swap_out_asset_amount, Some(4));
    assert_eq!(
        p.response.messages,
        vec![Msg::Execute {
            contract: s("me"),
            call: Call::PostSwapAction { min_asset: token("orai1t", 25), timeout_timestamp: 77, post_swap_action: vec![3, 1], exact_out: false },
            funds: vec![],
        }]
    );
    let e = execute_universal_swap(&s("me"), Some(token("orai1t", 10)), Ok(()), &vec![], Ok(memo(None, Some(Ok(vec![3, 1])), "2x")), Ok(()), Ok(14), true);
    assert!(matches!(e, Err(ContractError::Std(StdError::GenericErr(m))) if m.starts_with("Parsing u128: ")));
    let e = execute_universal_swap(&s("me"), Some(token("orai1t", 10)), Ok(()), &vec![], Ok(memo(None, Some(Ok(vec![3, 1])), "2")), Ok(()), Ok(9), true);
    assert_eq!(e.err(), Some(ContractError::Overflow(Overflow { operation: OverflowOperation::Sub, operand1: 9, operand2: 10 })));
}

#[test]
fn universal_swap_errors_in_order() {
    let e = execute_universal_swap(&s("me"), Some(native("orai", 1)), Err(ContractError::Std(StdError::Other(s("sent")))), &vec![], Err(ContractError::Std(StdError::Other(s("memo")))), Ok(()), Ok(0), false);
    assert!(matches!(e, Err(ContractError::Std(StdError::Other(m))) if m == "sent"));
    let e = execute_universal_swap(&s("me"), Some(native("orai", 1)), Ok(()), &vec![], Err(ContractError::Std(StdError::Other(s("memo")))), Ok(()), Ok(0), false);
    assert!(matches!(e, Err(ContractError::Std(StdError::Other(m))) if m == "memo"));
}

#[test]
fn convert_memo_swap_attaches_native_funds_only() {
    let mut msgs = vec![];
    let us = MemoSwap::ExactIn { swap: exact_in(), min_asset: Ok(native("usdt", 5)) };
    convert_user_swap_with_action_to_cosmos_msgs(&s("me"), &mut msgs, us, Ok(vec![8]), token("orai1t", 3), 1, s("r")).unwrap();
    match &msgs[0] {
        Msg::Execute { funds, call: Call::SwapAndActionWithRecover { post_swap_action, affiliates, .. }, .. } => {
            assert!(funds.is_empty());
            assert_eq!(*post_swap_action, vec![8]);
            assert!(affiliates.is_empty());
        }
        other => panic!("unexpected {:?}", other),
    }
    let us = MemoSwap::ExactIn { swap: exact_in(), min_asset: Err(ContractError::Std(StdError::Other(s("min")))) };
    let e = convert_user_swap_with_action_to_cosmos_msgs(&s("me"), &mut msgs, us, Err(ContractError::Std(StdError::Other(s("action")))), token("orai1t", 3), 1, s("r"));
    assert_eq!(e, Err(ContractError::Std(StdError::Other(s("min")))));
    assert_eq!(msgs.len(), 1);
}

#[test]
fn universal_swap_message_is_the_conversion() {
    let us = || MemoSwap::ExactIn { swap: exact_in(), min_asset: Ok(native("usdt", 5)) };
    let p = execute_universal_swap(&s("me"), None, Ok(()), &vec![coin("orai", 10)], Ok(memo(Some(us()), Some(Ok(vec![3, 1])), "5")), Ok(()), Ok(0), false).unwrap();
    let mut msgs = vec![];
    convert_user_swap_with_action_to_cosmos_msgs(&s("me"), &mut msgs, us(), Ok(vec![3, 1]), native("orai", 10), 77, s("recover")).unwrap();
    assert_eq!(p.response.messages, msgs);
    let failing = MemoSwap::ExactIn { swap: exact_in(), min_asset: Err(ContractError::Std(StdError::GenericErr(s("min")))) };
    let e = execute_universal_swap(&s("me"), None, Ok(()), &vec![coin("orai", 10)], Ok(memo(Some(failing), Some(Ok(vec![3, 1])), "5")), Ok(()), Ok(0), false);
    assert_eq!(e.err(), Some(ContractError::Std(StdError::GenericErr(s("min")))));
}
