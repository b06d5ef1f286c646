use vstd::prelude::*;
use crate::chain::{base64_decoded, decode_base64};
use crate::decimal::{parse_unsigned, spec_parse_unsigned};
use crate::error::{ContractError, StdError};
use crate::response::text;
use crate::split::{split_on, split_str, string_views};
use crate::swap::SwapOperation;

verus! {

/// An asset as the Oraidex router names it.
#[derive(Debug, PartialEq, Eq)]
pub enum AssetInfo {
    Token { contract_addr: String },
    NativeToken { denom: String },
}

/// A fee in the units of the v3 pools.
#[derive(Debug, PartialEq, Eq)]
pub struct Percentage(pub u64);

#[derive(Debug, PartialEq, Eq)]
pub struct FeeTier {
    pub fee: Percentage,
    pub tick_spacing: u16,
}

/// The key of an Oraidex v3 pool.
#[derive(Debug, PartialEq, Eq)]
pub struct PoolKey {
    pub token_x: String,
    pub token_y: String,
    pub fee_tier: FeeTier,
}

/// One operation of the Oraidex router.
#[derive(Debug, PartialEq, Eq)]
pub enum OraidexSwapOperation {
    OraiSwap { offer_asset_info: AssetInfo, ask_asset_info: AssetInfo },
    SwapV3 { pool_key: PoolKey, x_to_y: bool },
}

/// A contract call encoded in a pool id: the contract, and the base64 text of its message.
#[derive(Debug, PartialEq, Eq)]
pub struct PoolMsg {
    pub contract: String,
    pub msg: String,
}

/// The call that a swap operation becomes.
#[derive(Debug, PartialEq, Eq)]
pub enum SwapMsg {
    /// Call `contract` with these message bytes.
    Direct { contract: String, msg: Vec<u8> },
    /// Call the router to execute this one operation, with no minimum and no recipient.
    Router { router: String, operation: OraidexSwapOperation },
}

/// The asset that `denom` names: a token when `denom` is an address of the chain.
pub open spec fn spec_asset_info_is(info: AssetInfo, denom: Seq<char>, denom_is_address: bool) -> bool {
    if denom_is_address {
        info matches AssetInfo::Token { contract_addr } && contract_addr@ == denom
    } else {
        info matches AssetInfo::NativeToken { denom: d } && d@ == denom
    }
}

/// The router's name for `denom`: a token when the chain accepts `denom` as an address,
/// a native denomination otherwise.
pub fn denom_to_asset_info(denom: &String, denom_is_address: bool) -> (res: AssetInfo)
    ensures
        spec_asset_info_is(res, denom@, denom_is_address),
{
    if denom_is_address {
        AssetInfo::Token { contract_addr: denom.clone() }
    } else {
        AssetInfo::NativeToken { denom: denom.clone() }
    }
}

/// The v3 pool key that `pool_id` writes as `tokenX-tokenY-fee-tickSpacing`, or the
/// error that the adapter answers.
pub open spec fn pool_key_result_is(pool_id: Seq<char>, res: Result<PoolKey, ContractError>) -> bool {
    let parts = split_on(pool_id, '-');
    if parts.len() != 4 {
        res matches Err(ContractError::Std(StdError::GenericErr(m))) && m@
            == "Invalid v3 pool_id, require exactly 4 fields"@
    } else if spec_parse_unsigned(parts[2], u64::MAX as int) is None {
        res matches Err(ContractError::Std(StdError::GenericErr(m))) && m@ == "Invalid fee in v3 pool"@
    } else if spec_parse_unsigned(parts[3], u16::MAX as int) is None {
        res matches Err(ContractError::Std(StdError::GenericErr(m))) && m@ == "Invalid tick_spacing in v3 pool"@
    } else {
        res matches Ok(k) && k.token_x@ == parts[0] && k.token_y@ == parts[1] && Some(
            k.fee_tier.fee.0 as int,
        ) == spec_parse_unsigned(parts[2], u64::MAX as int) && Some(k.fee_tier.tick_spacing as int)
            == spec_parse_unsigned(parts[3], u16::MAX as int)
    }
}

/// Reads the key of a v3 pool from its id `tokenX-tokenY-fee-tickSpacing`: exactly four
/// fields separated by `-`, the fee a `u64` and the tick spacing a `u16`.
pub fn convert_pool_id_to_v3_pool_key(pool_id: &str) -> (res: Result<PoolKey, ContractError>)
    ensures
        pool_key_result_is(pool_id@, res),
{
    let mut parts = split_str(pool_id, '-');
    if parts.len() != 4 {
        return Err(ContractError::Std(StdError::GenericErr(text("Invalid v3 pool_id, require exactly 4 fields"))));
    }
    let fee = match parse_unsigned(parts[2].as_str(), u64::MAX as u128) {
        Some(v) => v as u64,
        None => {
            return Err(ContractError::Std(StdError::GenericErr(text("Invalid fee in v3 pool"))));
        },
    };
    let tick_spacing = match parse_unsigned(parts[3].as_str(), u16::MAX as u128) {
        Some(v) => v as u16,
        None => {
            return Err(ContractError::Std(StdError::GenericErr(text("Invalid tick_spacing in v3 pool"))));
        },
    };
    let ghost views = string_views(parts@);
    let token_y = parts.remove(1);
    let token_x = parts.remove(0);
    assert(token_x@ == views[0]);
    assert(token_y@ == views[1]);
    Ok(PoolKey { token_x, token_y, fee_tier: FeeTier { fee: Percentage(fee), tick_spacing } })
}

/// The bytes that a pool id decodes to as base64, or none when it is not base64.
pub fn pool_msg_bytes(pool: &String) -> (res: Vec<u8>)
    ensures
        match base64_decoded(pool@) {
            Some(b) => res@ == b,
            None => res@.len() == 0,
        },
{
    match decode_base64(pool.as_str()) {
        Ok(b) => b,
        Err(_) => Vec::new(),
    }
}

/// Whether `c` occurs in `s`.
pub fn contains_char(s: &str, c: char) -> (res: bool)
    ensures
        res == s@.contains(c),
{
    let n = s.unicode_len();
    let mut i: usize = 0;
    while i < n
        invariant
            i <= n,
            n == s@.len(),
            forall|j: int| 0 <= j < i ==> s@[j] != c,
        decreases n - i,
    {
        if s.get_char(i) == c {
            assert(s@[i as int] == c);
            return true;
        }
        i = i + 1;
    }
    false
}

/// Turns a swap operation into the call that performs it.
///
/// A pool id that is the base64 of a contract call (`pool_msg`, as the caller decoded it from
/// `pool_msg_bytes(&operation.pool)`) calls that contract with the message that its `msg`
/// encodes in base64; `contract_check` is the chain's verdict on its contract address.
/// Any other pool id goes through the Oraidex `router` (read from storage): a v3 swap when
/// the id holds a `-`, else a v2 swap between the denominations of the operation, each a
/// token when the chain accepts it as an address.
pub fn parse_to_swap_msg(
    operation: &SwapOperation,
    pool_msg: Option<PoolMsg>,
    contract_check: Result<(), ContractError>,
    router: Result<String, ContractError>,
    denom_in_is_address: bool,
    denom_out_is_address: bool,
) -> (res: Result<SwapMsg, ContractError>)
    ensures
        match pool_msg {
            Some(pm) => match contract_check {
                Err(e) => res == Err::<SwapMsg, ContractError>(e),
                Ok(()) => match base64_decoded(pm.msg@) {
                    None => res matches Err(ContractError::Std(StdError::InvalidBase64(_))),
                    Some(b) => res matches Ok(SwapMsg::Direct { contract, msg }) && contract
                        == pm.contract && msg@ == b,
                },
            },
            None => match router {
                Err(e) => res == Err::<SwapMsg, ContractError>(e),
                Ok(r) => if operation.pool@.contains('-') {
                    exists|k: Result<PoolKey, ContractError>|
                        pool_key_result_is(operation.pool@, k) && match k {
                            Err(e) => res == Err::<SwapMsg, ContractError>(e),
                            Ok(key) => res == Ok::<SwapMsg, ContractError>(
                                SwapMsg::Router {
                                    router: r,
                                    operation: OraidexSwapOperation::SwapV3 {
                                        pool_key: key,
                                        x_to_y: key.token_x@ == operation.denom_in@,
                                    },
                                },
                            ),
                        }
                } else {
                    res matches Ok(
                        SwapMsg::Router {
                            router,
                            operation: OraidexSwapOperation::OraiSwap { offer_asset_info, ask_asset_info },
                        },
                    ) && router == r && spec_asset_info_is(
                        offer_asset_info,
                        operation.denom_in@,
                        denom_in_is_address,
                    ) && spec_asset_info_is(ask_asset_info, operation.denom_out@, denom_out_is_address)
                },
            },
        },
{
    match pool_msg {
        Some(pm) => {
            if let Err(e) = contract_check {
                return Err(e);
            }
            match decode_base64(pm.msg.as_str()) {
                Ok(msg) => Ok(SwapMsg::Direct { contract: pm.contract, msg }),
                Err(e) => Err(ContractError::Std(e)),
            }
        },
        None => {
            let router = match router {
                Ok(r) => r,
                Err(e) => {
                    return Err(e);
                },
            };
            if contains_char(operation.pool.as_str(), '-') {
                let key_res = convert_pool_id_to_v3_pool_key(operation.pool.as_str());
                let ghost k = key_res;
                match key_res {
                    Ok(pool_key) => {
                        let x_to_y = pool_key.token_x == operation.denom_in;
                        let res = Ok(
                            SwapMsg::Router {
                                router,
                                operation: OraidexSwapOperation::SwapV3 { pool_key, x_to_y },
                            },
                        );
                        assert(pool_key_result_is(operation.pool@, k));
                        res
                    },
                    Err(e) => {
                        assert(pool_key_result_is(operation.pool@, k));
                        Err(e)
                    },
                }
            } else {
                Ok(
                    SwapMsg::Router {
                        router,
                        operation: OraidexSwapOperation::OraiSwap {
                            offer_asset_info: denom_to_asset_info(
                                &operation.denom_in,
                                denom_in_is_address,
                            ),
                            ask_asset_info: denom_to_asset_info(
                                &operation.denom_out,
                                denom_out_is_address,
                            ),
                        },
                    },
                )
            }
        },
    }
}

} // verus!
