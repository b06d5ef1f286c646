use universal_swap::decimal::parse_unsigned;
use universal_swap::error::{ContractError, StdError};
use universal_swap::oraidex::{
    contains_char, convert_pool_id_to_v3_pool_key, denom_to_asset_info, parse_to_swap_msg,
    pool_msg_bytes, AssetInfo, FeeTier, OraidexSwapOperation, Percentage, PoolKey, PoolMsg,
    SwapMsg,
};
use universal_swap::split::split_str;
use universal_swap::swap::SwapOperation;

fn s(x: &str) -> String {
    x.to_string()
}

fn op(pool: &str, denom_in: &str, denom_out: &str) -> SwapOperation {
    SwapOperation { pool: s(pool), denom_in: s(denom_in), denom_out: s(denom_out), interface: None }
}

fn generic(msg: &str) -> ContractError {
    ContractError::Std(StdError::GenericErr(s(msg)))
}

#[test]
fn pool_key_from_four_fields() {
    let key = convert_pool_id_to_v3_pool_key("orai-usdt-3000000000-100").unwrap();
    assert_eq!(
        key,
        PoolKey {
            token_x: s("orai"),
            token_y: s("usdt"),
            fee_tier: FeeTier { fee: Percentage(3000000000), tick_spacing: 100 },
        }
    );
}

#[test]
fn pool_key_with_token_addresses() {
    let key = convert_pool_id_to_v3_pool_key(
        "orai12hzjxfh77wl572gdzct2fxv2arxcwh6gykc7qh-ibc/A2E2EEC9057A4A1C2C0A6A4C78B0239118DF74F278830F50B4A6BDD7328507AA-500000000-10",
    )
    .unwrap();
    assert_eq!(key.token_x, s("orai12hzjxfh77wl572gdzct2fxv2arxcwh6gykc7qh"));
    assert_eq!(key.token_y, s("ibc/A2E2EEC9057A4A1C2C0A6A4C78B0239118DF74F278830F50B4A6BDD7328507AA"));
    assert_eq!(key.fee_tier.fee, Percentage(500000000));
    assert_eq!(key.fee_tier.tick_spacing, 10);
}

#[test]
fn pool_key_needs_exactly_four_fields() {
    let e = generic("Invalid v3 pool_id, require exactly 4 fields");
    assert_eq!(convert_pool_id_to_v3_pool_key("orai-usdt-3000"), Err(e));
    let e = generic("Invalid v3 pool_id, require exactly 4 fields");
    assert_eq!(convert_pool_id_to_v3_pool_key("a-b-1-2-3"), Err(e));
    let e = generic("Invalid v3 pool_id, require exactly 4 fields");
    assert_eq!(convert_pool_id_to_v3_pool_key(""), Err(e));
}

#[test]
fn pool_key_empty_tokens_are_kept() {
    let key = convert_pool_id_to_v3_pool_key("--1-2").unwrap();
    assert_eq!(key.token_x, s(""));
    assert_eq!(key.token_y, s(""));
    assert_eq!(key.fee_tier, FeeTier { fee: Percentage(1), tick_spacing: 2 });
}

#[test]
fn pool_key_refuses_bad_fee() {
    let e = || generic("Invalid fee in v3 pool");
    assert_eq!(convert_pool_id_to_v3_pool_key("a-b-x-1"), Err(e()));
    assert_eq!(convert_pool_id_to_v3_pool_key("a-b--1"), Err(e()));
    assert_eq!(convert_pool_id_to_v3_pool_key("a-b-18446744073709551616-1"), Err(e()));
    // the fee is checked before the tick spacing
    assert_eq!(convert_pool_id_to_v3_pool_key("a-b-x-y"), Err(e()));
}

#[test]
fn pool_key_fee_bounds() {
    let key = convert_pool_id_to_v3_pool_key("a-b-18446744073709551615-0").unwrap();
    assert_eq!(key.fee_tier.fee, Percentage(u64::MAX));
    let key = convert_pool_id_to_v3_pool_key("a-b-+7-+9").unwrap();
    assert_eq!(key.fee_tier, FeeTier { fee: Percentage(7), tick_spacing: 9 });
}

#[test]
fn pool_key_refuses_bad_tick_spacing() {
    let e = || generic("Invalid tick_spacing in v3 pool");
    assert_eq!(convert_pool_id_to_v3_pool_key("a-b-1-65536"), Err(e()));
    assert_eq!(convert_pool_id_to_v3_pool_key("a-b-1-"), Err(e()));
    assert_eq!(convert_pool_id_to_v3_pool_key("a-b-1- 2"), Err(e()));
    let key = convert_pool_id_to_v3_pool_key("a-b-1-65535").unwrap();
    assert_eq!(key.fee_tier.tick_spacing, 65535);
}

#[test]
fn pool_id_written_from_fields_reads_back() {
    let (x, y, f, t) = ("atom", "osmo", "42", "7");
    let id = format!("{}-{}-{}-{}", x, y, f, t);
    assert_eq!(
        convert_pool_id_to_v3_pool_key(&id),
        Ok(PoolKey {
            token_x: s(x),
            token_y: s(y),
            fee_tier: FeeTier { fee: Percentage(42), tick_spacing: 7 },
        })
    );
}

#[test]
fn decimal_parsing_follows_unsigned_parse() {
    assert_eq!(parse_unsigned("0", u64::MAX as u128), Some(0));
    assert_eq!(parse_unsigned("+12", u64::MAX as u128), Some(12));
    assert_eq!(parse_unsigned("007", 10), Some(7));
    assert_eq!(parse_unsigned("", u64::MAX as u128), None);
    assert_eq!(parse_unsigned("+", u64::MAX as u128), None);
    assert_eq!(parse_unsigned("-1", u64::MAX as u128), None);
    assert_eq!(parse_unsigned("12a", u64::MAX as u128), None);
    assert_eq!(parse_unsigned("11", 10), None);
    assert_eq!(parse_unsigned("340282366920938463463374607431768211455", u128::MAX), Some(u128::MAX));
    assert_eq!(parse_unsigned("340282366920938463463374607431768211456", u128::MAX), None);
    for text in ["0", "9", "255", "256", "+3", "x", "1x", "99999999999999999999"] {
        assert_eq!(parse_unsigned(text, u8::MAX as u128), text.parse::<u8>().ok().map(|v| v as u128));
    }
}

#[test]
fn split_keeps_empty_pieces() {
    assert_eq!(split_str("a-b", '-'), vec![s("a"), s("b")]);
    assert_eq!(split_str("", '-'), vec![s("")]);
    assert_eq!(split_str("-", '-'), vec![s(""), s("")]);
    assert_eq!(split_str("a--b-", '-'), vec![s("a"), s(""), s("b"), s("")]);
    let text = "x-yy--z";
    let expected: Vec<String> = text.split('-').map(|p| p.to_string()).collect();
    assert_eq!(split_str(text, '-'), expected);
}

#[test]
fn contains_char_finds_dash() {
    assert!(contains_char("orai-usdt-1-1", '-'));
    assert!(!contains_char("orai1pair", '-'));
    assert!(!contains_char("", '-'));
}

#[test]
fn denom_to_asset_info_by_address_check() {
    assert_eq!(
        denom_to_asset_info(&s("orai1token"), true),
        AssetInfo::Token { contract_addr: s("orai1token") }
    );
    assert_eq!(
        denom_to_asset_info(&s("orai"), false),
        AssetInfo::NativeToken { denom: s("orai") }
    );
}

#[test]
fn pool_msg_bytes_decodes_base64_or_gives_nothing() {
    assert_eq!(pool_msg_bytes(&s("aGVsbG8=")), b"hello".to_vec());
    assert_eq!(pool_msg_bytes(&s("aGVsbG8")), b"hello".to_vec());
    assert_eq!(pool_msg_bytes(&s("orai-usdt-1-1")), Vec::<u8>::new());
    assert_eq!(pool_msg_bytes(&s("orai1pair!")), Vec::<u8>::new());
}

#[test]
fn swap_msg_v2_through_router() {
    let res = parse_to_swap_msg(&op("orai1pair", "orai", "orai1usdt"), None, Ok(()), Ok(s("router")), false, true);
    assert_eq!(
        res,
        Ok(SwapMsg::Router {
            router: s("router"),
            operation: OraidexSwapOperation::OraiSwap {
                offer_asset_info: AssetInfo::NativeToken { denom: s("orai") },
                ask_asset_info: AssetInfo::Token { contract_addr: s("orai1usdt") },
            },
        })
    );
}

#[test]
fn swap_msg_v3_direction() {
    let key = PoolKey {
        token_x: s("orai"),
        token_y: s("usdt"),
        fee_tier: FeeTier { fee: Percentage(3000000000), tick_spacing: 100 },
    };
    let res = parse_to_swap_msg(&op("orai-usdt-3000000000-100", "orai", "usdt"), None, Ok(()), Ok(s("router")), false, false);
    assert_eq!(
        res,
        Ok(SwapMsg::Router {
            router: s("router"),
            operation: OraidexSwapOperation::SwapV3 { pool_key: key, x_to_y: true },
        })
    );
    let res = parse_to_swap_msg(&op("orai-usdt-3000000000-100", "usdt", "orai"), None, Ok(()), Ok(s("router")), false, false);
    match res {
        Ok(SwapMsg::Router { operation: OraidexSwapOperation::SwapV3 { x_to_y, .. }, .. }) => assert!(!x_to_y),
        other => panic!("unexpected {:?}", other),
    }
}

#[test]
fn swap_msg_v3_bad_pool_id() {
    let res = parse_to_swap_msg(&op("orai-usdt-3000", "orai", "usdt"), None, Ok(()), Ok(s("router")), false, false);
    assert_eq!(res, Err(generic("Invalid v3 pool_id, require exactly 4 fields")));
}

#[test]
fn swap_msg_needs_router() {
    let res = parse_to_swap_msg(&op("orai1pair", "orai", "usdt"), None, Ok(()), Err(ContractError::Std(StdError::Other(s("not found")))), false, false);
    assert_eq!(res, Err(ContractError::Std(StdError::Other(s("not found")))));
}

#[test]
fn swap_msg_direct_contract_call() {
    let pm = PoolMsg { contract: s("orai1contract"), msg: s("eyJzd2FwIjp7fX0=") };
    let res = parse_to_swap_msg(&op("ignored", "orai", "usdt"), Some(pm), Ok(()), Err(ContractError::Unauthorized), false, false);
    assert_eq!(res, Ok(SwapMsg::Direct { contract: s("orai1contract"), msg: b"{\"swap\":{}}".to_vec() }));
}

#[test]
fn swap_msg_direct_errors() {
    let pm = PoolMsg { contract: s("bad"), msg: s("eyJzd2FwIjp7fX0=") };
    let res = parse_to_swap_msg(&op("p", "a", "b"), Some(pm), Err(ContractError::Std(StdError::Other(s("invalid address")))), Ok(s("r")), false, false);
    assert_eq!(res, Err(ContractError::Std(StdError::Other(s("invalid address")))));
    let pm = PoolMsg { contract: s("orai1contract"), msg: s("not base64!") };
    let res = parse_to_swap_msg(&op("p", "a", "b"), Some(pm), Ok(()), Ok(s("r")), false, false);
    assert!(matches!(res, Err(ContractError::Std(StdError::InvalidBase64(_)))));
}

#[test]
fn pool_key_written_out_reads_back() {
    for (x, y, fee, tick) in [("orai", "usdt", 3000000000u64, 100u16), ("a", "b", 0, 0), ("orai1x", "ibc/AB", u64::MAX, u16::MAX)] {
        let id = format!("{}-{}-{}-{}", x, y, fee, tick);
        let key = convert_pool_id_to_v3_pool_key(&id).unwrap();
        assert_eq!(key, PoolKey { token_x: s(x), token_y: s(y), fee_tier: FeeTier { fee: Percentage(fee), tick_spacing: tick } });
    }
}
