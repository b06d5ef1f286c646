use vstd::prelude::*;
use crate::action::Action;
use crate::asset::Asset;
use crate::error::{ContractError, Overflow, OverflowOperation};
use crate::response::{action, attr_amount, attr_string, attr_views, decimal_text, Call, Msg, Response};

verus! {

/// The asset that the post swap action hands on: what the swap brought in
/// (`post - pre` of the minimum asset's denomination), or exactly the minimum asset after a
/// swap for an exact amount out.
pub open spec fn transfer_out_asset(
    min_asset: Asset,
    exact_out: bool,
    denom_is_address: bool,
    received: u128,
) -> Asset {
    if exact_out {
        min_asset
    } else {
        Asset::from_parts(min_asset.denom_string(), denom_is_address, received)
    }
}

/// Why dispatching `post_swap_action` fails, if it does: `address_check` is the chain's
/// verdict on the address that the action names, `adapter` the stored IBC adapter that it
/// needs and `contract_blocked` whether a called contract is blocked.
pub open spec fn post_action_error(
    post_swap_action: Action,
    out: Asset,
    address_check: Result<(), ContractError>,
    adapter: Result<String, ContractError>,
    contract_blocked: bool,
) -> Option<ContractError> {
    match post_swap_action {
        Action::Transfer { .. } => if address_check is Err {
            Some(address_check->Err_0)
        } else {
            None
        },
        Action::IbcTransfer { .. } => if address_check is Err {
            Some(address_check->Err_0)
        } else if !(out is Native) {
            Some(ContractError::NonNativeIbcTransfer)
        } else if adapter is Err {
            Some(adapter->Err_0)
        } else {
            None
        },
        Action::ContractCall { .. } => if address_check is Err {
            Some(address_check->Err_0)
        } else if contract_blocked {
            Some(ContractError::ContractCallAddressBlocked)
        } else {
            None
        },
        Action::IbcWasmTransfer { .. } => if adapter is Err {
            Some(adapter->Err_0)
        } else {
            None
        },
    }
}

/// The message that dispatches `post_swap_action` with `out`.
pub open spec fn post_action_msg_is(
    m: Msg,
    post_swap_action: Action,
    out: Asset,
    timeout_timestamp: u64,
    adapter: String,
) -> bool {
    match post_swap_action {
        Action::Transfer { to_address } => m == Msg::Transfer { asset: out, recipient: to_address },
        Action::IbcTransfer { ibc_info, .. } => m matches Msg::Execute { contract, call, funds }
            && contract == adapter && call == (Call::IbcTransfer {
            ibc_info,
            coin: out->Native_0,
            timeout_timestamp,
        })
            && funds@ == seq![out->Native_0],
        Action::ContractCall { contract_address, msg } => m == Msg::SendWithCall {
            asset: out,
            contract: contract_address,
            call: Call::Raw(msg),
        },
        Action::IbcWasmTransfer { ibc_wasm_info } => match out {
            Asset::Native(c) => m matches Msg::Execute { contract, call, funds } && contract
                == adapter && call == (Call::IbcWasmTransfer { ibc_wasm_info, asset: out })
                && funds@ == seq![c],
            Asset::Cw20(c) => m == Msg::Cw20Send {
                token: c.address,
                contract: adapter,
                amount: c.amount,
                call: Call::IbcWasmTransfer { ibc_wasm_info, asset: out },
            },
        },
    }
}

/// The attribute value that names the dispatch of `post_swap_action`.
pub open spec fn post_action_label(post_swap_action: Action) -> Seq<char> {
    match post_swap_action {
        Action::Transfer { .. } => "dispatch_post_swap_transfer"@,
        Action::IbcTransfer { .. } => "dispatch_post_swap_ibc_transfer"@,
        Action::ContractCall { .. } => "dispatch_post_swap_contract_call"@,
        Action::IbcWasmTransfer { .. } => "dispatch_post_swap_ibc_wasm_transfer"@,
    }
}

/// What a post swap action answers, for each input: see `execute_post_swap_action`.
pub open spec fn post_swap_action_post(
    sender: String,
    contract_address: String,
    min_asset: Asset,
    timeout_timestamp: u64,
    post_swap_action: Action,
    exact_out: bool,
    pre_swap_out_asset_amount: Result<u128, ContractError>,
    post_swap_out_asset_amount: Result<u128, ContractError>,
    min_denom_is_address: bool,
    address_check: Result<(), ContractError>,
    adapter: Result<String, ContractError>,
    contract_blocked: bool,
    res: Result<Response, ContractError>,
) -> bool {
    &&& (sender@ != contract_address@ ==> res == Err::<Response, ContractError>(
            ContractError::Unauthorized,
        ))
    &&& (sender@ == contract_address@ ==> match pre_swap_out_asset_amount {
            Err(e) => res == Err::<Response, ContractError>(e),
            Ok(pre) => match post_swap_out_asset_amount {
                Err(e) => res == Err::<Response, ContractError>(e),
                Ok(post) => if post < pre {
                    res == Err::<Response, ContractError>(
                        ContractError::Overflow(
                            Overflow { operation: OverflowOperation::Sub, operand1: post, operand2: pre },
                        ),
                    )
                } else if post - pre < min_asset.amount_of() {
                    res == Err::<Response, ContractError>(
                        ContractError::ReceivedLessAssetFromSwapsThanMinAsset,
                    )
                } else {
                    let out = transfer_out_asset(
                        min_asset,
                        exact_out,
                        min_denom_is_address,
                        (post - pre) as u128,
                    );
                    match post_action_error(
                        post_swap_action,
                        out,
                        address_check,
                        adapter,
                        contract_blocked,
                    ) {
                        Some(e) => res == Err::<Response, ContractError>(e),
                        None => res matches Ok(r) && r.messages@.len() == 1 && post_action_msg_is(
                            r.messages@[0],
                            post_swap_action,
                            out,
                            timeout_timestamp,
                            adapter->Ok_0,
                        ) && attr_views(r.attributes@) =~= seq![
                            ("action"@, "execute_post_swap_action"@),
                            ("post_swap_action_amount_out"@, decimal_text(out.amount_of() as nat)),
                            ("post_swap_action_denom_out"@, out.denom_of()),
                            ("action"@, post_action_label(post_swap_action)),
                        ],
                    }
                },
            },
        })
}

/// Dispatches the post swap action; only the contract itself may call it. The asset out is
/// what the contract's balance of the minimum asset's denomination
/// (`post_swap_out_asset_amount`) gained over the balance stored before the swap
/// (`pre_swap_out_asset_amount`); it must reach the minimum amount, and after a swap for an
/// exact amount out exactly the minimum asset is handed on.
pub fn execute_post_swap_action(
    sender: &String,
    contract_address: &String,
    min_asset: Asset,
    timeout_timestamp: u64,
    post_swap_action: Action,
    exact_out: bool,
    pre_swap_out_asset_amount: Result<u128, ContractError>,
    post_swap_out_asset_amount: Result<u128, ContractError>,
    min_denom_is_address: bool,
    address_check: Result<(), ContractError>,
    adapter: Result<String, ContractError>,
    contract_blocked: bool,
) -> (res: Result<Response, ContractError>)
    ensures
        post_swap_action_post(
            *sender,
            *contract_address,
            min_asset,
            timeout_timestamp,
            post_swap_action,
            exact_out,
            pre_swap_out_asset_amount,
            post_swap_out_asset_amount,
            min_denom_is_address,
            address_check,
            adapter,
            contract_blocked,
            res,
        ),
{
    if *sender != *contract_address {
        return Err(ContractError::Unauthorized);
    }
    let pre = match pre_swap_out_asset_amount {
        Ok(v) => v,
        Err(e) => {
            return Err(e);
        },
    };
    let post = match post_swap_out_asset_amount {
        Ok(v) => v,
        Err(e) => {
            return Err(e);
        },
    };
    if post < pre {
        return Err(
            ContractError::Overflow(
                Overflow { operation: OverflowOperation::Sub, operand1: post, operand2: pre },
            ),
        );
    }
    let received = Asset::new(min_asset.denom(), min_denom_is_address, post - pre);
    if received.amount() < min_asset.amount() {
        return Err(ContractError::ReceivedLessAssetFromSwapsThanMinAsset);
    }
    let out = if exact_out {
        min_asset
    } else {
        received
    };
    let mut response = Response::new();
    response.attributes.push(action("execute_post_swap_action"));
    response.attributes.push(attr_amount("post_swap_action_amount_out", out.amount()));
    response.attributes.push(attr_string("post_swap_action_denom_out", out.denom()));
    match post_swap_action {
        Action::Transfer { to_address } => {
            if let Err(e) = address_check {
                return Err(e);
            }
            response.messages.push(Msg::Transfer { asset: out, recipient: to_address });
            response.attributes.push(action("dispatch_post_swap_transfer"));
        },
        Action::IbcTransfer { ibc_info, .. } => {
            if let Err(e) = address_check {
                return Err(e);
            }
            let coin = match out {
                Asset::Native(c) => c,
                Asset::Cw20(_) => {
                    return Err(ContractError::NonNativeIbcTransfer);
                },
            };
            let contract = match adapter {
                Ok(a) => a,
                Err(e) => {
                    return Err(e);
                },
            };
            let mut funds: Vec<crate::asset::Coin> = Vec::new();
            funds.push(coin.clone());
            response.messages.push(
                Msg::Execute {
                    contract,
                    call: Call::IbcTransfer { ibc_info, coin, timeout_timestamp },
                    funds,
                },
            );
            response.attributes.push(action("dispatch_post_swap_ibc_transfer"));
        },
        Action::ContractCall { contract_address, msg } => {
            if let Err(e) = address_check {
                return Err(e);
            }
            if contract_blocked {
                return Err(ContractError::ContractCallAddressBlocked);
            }
            response.messages.push(
                Msg::SendWithCall { asset: out, contract: contract_address, call: Call::Raw(msg) },
            );
            response.attributes.push(action("dispatch_post_swap_contract_call"));
        },
        Action::IbcWasmTransfer { ibc_wasm_info } => {
            let contract = match adapter {
                Ok(a) => a,
                Err(e) => {
                    return Err(e);
                },
            };
            let m = match &out {
                Asset::Native(c) => {
                    let mut funds: Vec<crate::asset::Coin> = Vec::new();
                    funds.push(c.clone());
                    Msg::Execute {
                        contract,
                        call: Call::IbcWasmTransfer { ibc_wasm_info, asset: out.clone() },
                        funds,
                    }
                },
                Asset::Cw20(c) => Msg::Cw20Send {
                    token: c.address.clone(),
                    contract,
                    amount: c.amount,
                    call: Call::IbcWasmTransfer { ibc_wasm_info, asset: out.clone() },
                },
            };
            response.messages.push(m);
            response.attributes.push(action("dispatch_post_swap_ibc_wasm_transfer"));
        },
    }
    assert(response.messages@.len() == 1);
    Ok(response)
}

} // verus!
