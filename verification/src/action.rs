use vstd::prelude::*;
use crate::asset::Coin;
use crate::error::SkipError;
use crate::swap::SwapExactAssetOut;

verus! {

/// What happens to the asset out after the swap, holding what the contract reads of it.
#[derive(Debug, PartialEq, Eq)]
pub enum Action {
    /// Send it to `to_address` on this chain.
    Transfer { to_address: String },
    /// Send it over IBC. `ibc_info` is the encoded IBC details (channel, receiver, fees,
    /// memo, recover address), which the IBC transfer carries on; `fee_coin` is the single
    /// coin of the IBC fees, when fees are given (or why they do not make a single coin);
    /// `fee_swap` a swap that buys that coin.
    IbcTransfer {
        ibc_info: Vec<u8>,
        fee_coin: Option<Result<Coin, SkipError>>,
        fee_swap: Option<SwapExactAssetOut>,
    },
    /// Call `contract_address` with `msg`, handing it the asset.
    ContractCall { contract_address: String, msg: Vec<u8> },
    /// Send it over IBC through the IBC wasm adapter; `ibc_wasm_info` is the encoded IBC
    /// wasm details, which the transfer carries on.
    IbcWasmTransfer { ibc_wasm_info: Vec<u8> },
}

/// A post swap action as a call carries it: what the contract reads of it, and its
/// encoding, which the contract forwards as it is.
#[derive(Debug, PartialEq, Eq)]
pub struct PostSwapAction {
    pub action: Action,
    pub encoded: Vec<u8>,
}

} // verus!
