use vstd::prelude::*;
use crate::asset::{Asset, Coin};
use crate::chain::{base64_decoded, decode_base64, uint128_from_str};
use crate::decimal::spec_parse_unsigned;
use crate::error::{ContractError, Overflow, OverflowOperation, StdError};
use crate::response::{action, attr_views, Attribute, Call, Msg, ReplyOn, Response, SubMsg};
use crate::swap::{Affiliate, SmartSwapExactAssetIn, Swap, SwapExactAssetIn};
use crate::swap_and_action::{sent_asset_result, unwrap_sent_asset};

verus! {

/// The id under which the reply of the swap and action with recovery comes back.
pub const RECOVER_REPLY_ID: u64 = 1;

/// What `execute_swap_and_action_with_recover` stores and answers.
pub struct RecoverPlan {
    /// The assets to give back to `recovery_addr` if the swap and action fails.
    pub assets: Vec<Asset>,
    pub recovery_addr: String,
    /// The submessages of the answer: the call of the contract itself that performs the
    /// swap and action.
    pub sub_messages: Vec<SubMsg>,
    /// The attributes of the answer.
    pub attributes: Vec<Attribute>,
}

/// The coins as assets.
pub open spec fn natives(funds: Seq<Coin>) -> Seq<Asset> {
    funds.map_values(|c: Coin| Asset::Native(c))
}

/// The assets that a call with recovery gives back on failure: every coin attached, then
/// the token sent, if a token was sent.
pub open spec fn recover_assets(funds: Seq<Coin>, sent_asset: Option<Asset>) -> Seq<Asset> {
    natives(funds) + match sent_asset {
        Some(Asset::Cw20(c)) => seq![Asset::Cw20(c)],
        _ => seq![],
    }
}

/// What a swap and action with recovery stores and answers: see
/// `execute_swap_and_action_with_recover`.
pub open spec fn recover_plan_post(
    contract_address: String,
    funds: Seq<Coin>,
    sent_asset: Option<Asset>,
    user_swap: Swap,
    min_asset: Asset,
    timeout_timestamp: u64,
    post_swap_action: Vec<u8>,
    affiliates: Vec<Affiliate>,
    recovery_addr: String,
    res: RecoverPlan,
) -> bool {
    &&& (res.assets@ == recover_assets(funds, sent_asset))
    &&& (res.recovery_addr == recovery_addr)
    &&& (res.attributes@.len() == 0)
    &&& (res.sub_messages@.len() == 1)
    &&& (res.sub_messages@[0].id == RECOVER_REPLY_ID)
    &&& (res.sub_messages@[0].reply_on == ReplyOn::Always)
    &&& (res.sub_messages@[0].msg matches Msg::Execute { contract, call, funds: f } && contract
            == contract_address && f@ == funds && call == (Call::SwapAndAction {
            sent_asset,
            user_swap,
            min_asset,
            timeout_timestamp,
            post_swap_action,
            affiliates,
        }))
}

/// Stores what to give back and to whom, then answers, with no attributes, one submessage:
/// the call of the contract itself (at `contract_address`) for the swap and action with the
/// same arguments (the post swap action in its encoding) and coins, whose reply comes back
/// under `RECOVER_REPLY_ID` whatever it is.
pub fn execute_swap_and_action_with_recover(
    contract_address: &String,
    funds: Vec<Coin>,
    sent_asset: Option<Asset>,
    user_swap: Swap,
    min_asset: Asset,
    timeout_timestamp: u64,
    post_swap_action: Vec<u8>,
    affiliates: Vec<Affiliate>,
    recovery_addr: String,
) -> (res: RecoverPlan)
    ensures
        recover_plan_post(
            *contract_address,
            funds@,
            sent_asset,
            user_swap,
            min_asset,
            timeout_timestamp,
            post_swap_action,
            affiliates,
            recovery_addr,
            res,
        ),
{
    let mut assets: Vec<Asset> = Vec::new();
    let mut i: usize = 0;
    while i < funds.len()
        invariant
            i <= funds@.len(),
            assets@ == natives(funds@.take(i as int)),
        decreases funds@.len() - i,
    {
        assets.push(Asset::Native(funds[i].clone()));
        assert(funds@.take(i + 1) =~= funds@.take(i as int).push(funds@[i as int]));
        assert(assets@ =~= natives(funds@.take(i + 1)));
        i = i + 1;
    }
    assert(funds@.take(i as int) =~= funds@);
    if let Some(a) = &sent_asset {
        if let Asset::Cw20(_) = a {
            assets.push(a.clone());
        }
    }
    assert(assets@ =~= recover_assets(funds@, sent_asset));
    let mut sub_messages: Vec<SubMsg> = Vec::new();
    sub_messages.push(
        SubMsg {
            id: RECOVER_REPLY_ID,
            msg: Msg::Execute {
                contract: contract_address.clone(),
                call: Call::SwapAndAction {
                    sent_asset,
                    user_swap,
                    min_asset,
                    timeout_timestamp,
                    post_swap_action,
                    affiliates,
                },
                funds,
            },
            reply_on: ReplyOn::Always,
        },
    );
    RecoverPlan { assets, recovery_addr, sub_messages, attributes: Vec::new() }
}

/// The swap that a universal swap memo asks for, as made from the memo, with the minimum
/// asset made from the memo's minimum receive (or why it could not be made).
#[derive(Debug, PartialEq, Eq)]
pub enum MemoSwap {
    ExactIn { swap: SwapExactAssetIn, min_asset: Result<Asset, ContractError> },
    Smart { smart_swap: SmartSwapExactAssetIn, min_asset: Result<Asset, ContractError> },
}

/// A universal swap memo, holding what the contract reads of it. `post_swap_action` is,
/// when the memo holds a post swap action, the encoding of the entry point's action made
/// from it and the memo's timeout, or why no such action can be made.
#[derive(Debug, PartialEq, Eq)]
pub struct Memo {
    pub user_swap: Option<MemoSwap>,
    pub post_swap_action: Option<Result<Vec<u8>, ContractError>>,
    pub minimum_receive: String,
    pub timeout_timestamp: u64,
    pub recovery_addr: String,
}

/// The message that calls the swap and action with recovery for a memo's swap, carrying
/// the encoded post swap action and no affiliates.
pub open spec fn recover_call_is(
    m: Msg,
    contract_address: String,
    user_swap: MemoSwap,
    post_swap_action: Vec<u8>,
    sent_asset: Asset,
    timeout_timestamp: u64,
    recovery_addr: String,
) -> bool {
    let (swap, min_asset) = match user_swap {
        MemoSwap::ExactIn { swap, min_asset } => (Swap::SwapExactAssetIn(swap), min_asset),
        MemoSwap::Smart { smart_swap: swap, min_asset } => (Swap::SmartSwapExactAssetIn(swap), min_asset),
    };
    &&& m matches Msg::Execute { contract, call, funds }
    &&& contract == contract_address
    &&& call matches Call::SwapAndActionWithRecover {
        sent_asset: s,
        user_swap: u,
        min_asset: a,
        timeout_timestamp: t,
        post_swap_action: pa,
        affiliates,
        recovery_addr: r,
    }
    &&& s == Some(sent_asset) && u == swap && a == min_asset->Ok_0 && t == timeout_timestamp
    &&& pa == post_swap_action && affiliates@.len() == 0 && r == recovery_addr
    &&& funds@ == match sent_asset {
        Asset::Native(c) => seq![c],
        Asset::Cw20(_) => seq![],
    }
}

/// The minimum asset of a memo's swap.
pub open spec fn memo_min_asset(user_swap: MemoSwap) -> Result<Asset, ContractError> {
    match user_swap {
        MemoSwap::ExactIn { min_asset, .. } => min_asset,
        MemoSwap::Smart { min_asset, .. } => min_asset,
    }
}

/// Why converting a memo's swap and post swap action into a message fails, if it does:
/// the minimum asset is made first, then the action.
pub open spec fn conversion_error(
    user_swap: MemoSwap,
    post_swap_action: Result<Vec<u8>, ContractError>,
) -> Option<ContractError> {
    if memo_min_asset(user_swap) is Err {
        Some(memo_min_asset(user_swap)->Err_0)
    } else if post_swap_action is Err {
        Some(post_swap_action->Err_0)
    } else {
        None
    }
}

/// What converting a memo's swap and post swap action does to a list of messages (`before`
/// the call, `after` it) and answers (`res`): on error the list is unchanged; otherwise the
/// call of the swap and action with recovery is added at its end.
pub open spec fn convert_post(
    before: Seq<Msg>,
    after: Seq<Msg>,
    res: Result<(), ContractError>,
    contract_address: String,
    user_swap: MemoSwap,
    post_swap_action: Result<Vec<u8>, ContractError>,
    sent_asset: Asset,
    timeout_timestamp: u64,
    recovery_addr: String,
) -> bool {
    match conversion_error(user_swap, post_swap_action) {
        Some(e) => res == Err::<(), ContractError>(e) && after == before,
        None => {
            &&& res is Ok
            &&& after.len() == before.len() + 1
            &&& after.take(before.len() as int) == before
            &&& recover_call_is(
                after.last(),
                contract_address,
                user_swap,
                post_swap_action->Ok_0,
                sent_asset,
                timeout_timestamp,
                recovery_addr,
            )
        },
    }
}

/// Adds to `cosmos_msgs` the call of the contract itself for the swap and action with
/// recovery that a memo's swap and post swap action make, with the sent asset attached
/// when it is a coin.
pub fn convert_user_swap_with_action_to_cosmos_msgs(
    contract_address: &String,
    cosmos_msgs: &mut Vec<Msg>,
    user_swap: MemoSwap,
    post_swap_action: Result<Vec<u8>, ContractError>,
    sent_asset: Asset,
    timeout_timestamp: u64,
    recovery_addr: String,
) -> (res: Result<(), ContractError>)
    ensures
        convert_post(
            old(cosmos_msgs)@,
            final(cosmos_msgs)@,
            res,
            *contract_address,
            user_swap,
            post_swap_action,
            sent_asset,
            timeout_timestamp,
            recovery_addr,
        ),
{
    let (swap, min_asset) = match user_swap {
        MemoSwap::ExactIn { swap, min_asset } => (Swap::SwapExactAssetIn(swap), min_asset),
        MemoSwap::Smart { smart_swap: swap, min_asset } => (Swap::SmartSwapExactAssetIn(swap), min_asset),
    };
    let min_asset = match min_asset {
        Ok(a) => a,
        Err(e) => {
            return Err(e);
        },
    };
    let post_swap_action = match post_swap_action {
        Ok(pa) => pa,
        Err(e) => {
            return Err(e);
        },
    };
    let mut funds: Vec<Coin> = Vec::new();
    if let Asset::Native(c) = &sent_asset {
        funds.push(c.clone());
    }
    let ghost old_msgs = cosmos_msgs@;
    cosmos_msgs.push(
        Msg::Execute {
            contract: contract_address.clone(),
            call: Call::SwapAndActionWithRecover {
                sent_asset: Some(sent_asset),
                user_swap: swap,
                min_asset,
                timeout_timestamp,
                post_swap_action,
                affiliates: Vec::new(),
                recovery_addr,
            },
            funds,
        },
    );
    assert(cosmos_msgs@.take(old_msgs.len() as int) =~= old_msgs);
    Ok(())
}

/// The bytes of a memo given in base64.
pub fn memo_bytes(memo: &str) -> (res: Result<Vec<u8>, ContractError>)
    ensures
        match base64_decoded(memo@) {
            Some(b) => res matches Ok(v) && v@ == b,
            None => res matches Err(ContractError::Std(StdError::InvalidBase64(_))),
        },
{
    match decode_base64(memo) {
        Ok(b) => Ok(b),
        Err(e) => Err(ContractError::Std(e)),
    }
}

/// What a universal swap writes and answers.
pub struct UniversalSwapPlan {
    /// The balance to store as the pre swap out amount, when one is stored.
    pub pre_swap_out_asset_amount: Option<u128>,
    pub response: Response,
}

/// What a universal swap answers, for each input: see `execute_universal_swap`.
pub open spec fn universal_swap_post(
    contract_address: String,
    sent_asset: Option<Asset>,
    sent_asset_check: Result<(), ContractError>,
    funds: Seq<Coin>,
    memo: Result<Memo, ContractError>,
    recovery_check: Result<(), ContractError>,
    sent_denom_available: Result<u128, ContractError>,
    sent_denom_is_address: bool,
    res: Result<UniversalSwapPlan, ContractError>,
) -> bool {
    match sent_asset_result(sent_asset, sent_asset_check, funds) {
        Err(e) => res == Err::<UniversalSwapPlan, ContractError>(e),
        Ok(sent) => match memo {
            Err(e) => res == Err::<UniversalSwapPlan, ContractError>(e),
            Ok(m) => if m.post_swap_action is Some && m.user_swap is Some {
                let us = m.user_swap->Some_0;
                let pa = m.post_swap_action->Some_0;
                if recovery_check is Err {
                    res == Err::<UniversalSwapPlan, ContractError>(recovery_check->Err_0)
                } else {
                    match conversion_error(us, pa) {
                        Some(e) => res == Err::<UniversalSwapPlan, ContractError>(e),
                        None => res matches Ok(p) && {
                            &&& p.pre_swap_out_asset_amount is None
                            &&& convert_post(
                                Seq::empty(),
                                p.response.messages@,
                                Ok(()),
                                contract_address,
                                us,
                                pa,
                                sent,
                                m.timeout_timestamp,
                                m.recovery_addr,
                            )
                            &&& attr_views(p.response.attributes@) == seq![
                                ("action"@, "execute_universal_swap"@),
                            ]
                        },
                    }
                }
            } else if m.post_swap_action is Some {
                let min_amount = spec_parse_unsigned(m.minimum_receive@, u128::MAX as int);
                match sent_denom_available {
                    Err(e) => res == Err::<UniversalSwapPlan, ContractError>(e),
                    Ok(avail) => if avail < sent.amount_of() {
                        res == Err::<UniversalSwapPlan, ContractError>(
                            ContractError::Overflow(
                                Overflow {
                                    operation: OverflowOperation::Sub,
                                    operand1: avail,
                                    operand2: sent.amount_of(),
                                },
                            ),
                        )
                    } else if min_amount is None {
                        res matches Err(ContractError::Std(StdError::GenericErr(m))) && "Parsing u128: "@.is_prefix_of(m@)
                    } else if m.post_swap_action->Some_0 is Err {
                        res == Err::<UniversalSwapPlan, ContractError>(
                            m.post_swap_action->Some_0->Err_0,
                        )
                    } else {
                        res matches Ok(p) && {
                            &&& p.pre_swap_out_asset_amount == Some(
                                (avail - sent.amount_of()) as u128,
                            )
                            &&& p.response.messages@.len() == 1
                            &&& p.response.messages@[0] matches Msg::Execute {
                                contract,
                                call: Call::PostSwapAction {
                                    min_asset,
                                    timeout_timestamp,
                                    post_swap_action,
                                    exact_out,
                                },
                                funds: f,
                            } && contract == contract_address && min_asset == Asset::from_parts(
                                sent.denom_string(),
                                sent_denom_is_address,
                                min_amount->Some_0 as u128,
                            ) && timeout_timestamp == m.timeout_timestamp && post_swap_action
                                == m.post_swap_action->Some_0->Ok_0 && !exact_out && f@.len()
                                == 0
                            &&& attr_views(p.response.attributes@) == seq![
                                ("action"@, "execute_universal_swap"@),
                            ]
                        }
                    },
                }
            } else {
                res matches Ok(p) && p.pre_swap_out_asset_amount is None
                    && p.response.messages@ == seq![
                    Msg::Transfer { asset: sent, recipient: m.recovery_addr },
                ] && attr_views(p.response.attributes@) == seq![
                    ("action"@, "execute_universal_swap"@),
                ]
            },
        },
    }
}

/// Runs a universal swap memo (`memo`, as decoded from `memo_bytes`) with the asset sent:
/// with a swap and a post swap action, the contract calls itself for the swap and action
/// with recovery (`recovery_check` is what the chain said of the recovery address); with a
/// post swap action only, it stores the contract's balance of the sent denomination
/// (`sent_denom_available`, which includes the asset sent) less the asset sent, and calls
/// itself for the post swap action with the memo's minimum receive in the sent
/// denomination (a token when the chain accepts that denomination as an address) and the
/// memo's action; otherwise it sends the asset to the memo's recovery address.
pub fn execute_universal_swap(
    contract_address: &String,
    sent_asset: Option<Asset>,
    sent_asset_check: Result<(), ContractError>,
    funds: &Vec<Coin>,
    memo: Result<Memo, ContractError>,
    recovery_check: Result<(), ContractError>,
    sent_denom_available: Result<u128, ContractError>,
    sent_denom_is_address: bool,
) -> (res: Result<UniversalSwapPlan, ContractError>)
    ensures
        universal_swap_post(
            *contract_address,
            sent_asset,
            sent_asset_check,
            funds@,
            memo,
            recovery_check,
            sent_denom_available,
            sent_denom_is_address,
            res,
        ),
{
    let mut response = Response::new();
    response.attributes.push(action("execute_universal_swap"));
    assert(attr_views(response.attributes@) =~= seq![("action"@, "execute_universal_swap"@)]);
    let sent = match unwrap_sent_asset(sent_asset, sent_asset_check, funds) {
        Ok(a) => a,
        Err(e) => {
            return Err(e);
        },
    };
    let memo = match memo {
        Ok(m) => m,
        Err(e) => {
            return Err(e);
        },
    };
    let Memo { user_swap, post_swap_action, minimum_receive, timeout_timestamp, recovery_addr } =
        memo;
    let mut pre_swap_out_asset_amount: Option<u128> = None;
    match (post_swap_action, user_swap) {
        (Some(post), Some(us)) => {
            if let Err(e) = recovery_check {
                return Err(e);
            }
            assert(response.messages@ =~= Seq::<Msg>::empty());
            if let Err(e) = convert_user_swap_with_action_to_cosmos_msgs(
                contract_address,
                &mut response.messages,
                us,
                post,
                sent,
                timeout_timestamp,
                recovery_addr,
            ) {
                return Err(e);
            }
        },
        (Some(post), None) => {
            let avail = match sent_denom_available {
                Ok(v) => v,
                Err(e) => {
                    return Err(e);
                },
            };
            if avail < sent.amount() {
                return Err(
                    ContractError::Overflow(
                        Overflow {
                            operation: OverflowOperation::Sub,
                            operand1: avail,
                            operand2: sent.amount(),
                        },
                    ),
                );
            }
            pre_swap_out_asset_amount = Some(avail - sent.amount());
            let min_amount = match uint128_from_str(minimum_receive.as_str()) {
                Ok(v) => v,
                Err(e) => {
                    return Err(ContractError::Std(e));
                },
            };
            let min_asset = Asset::new(sent.denom(), sent_denom_is_address, min_amount);
            let post_swap_action = match post {
                Ok(pa) => pa,
                Err(e) => {
                    return Err(e);
                },
            };
            response.messages.push(
                Msg::Execute {
                    contract: contract_address.clone(),
                    call: Call::PostSwapAction {
                        min_asset,
                        timeout_timestamp,
                        post_swap_action,
                        exact_out: false,
                    },
                    funds: Vec::new(),
                },
            );
        },
        (None, _) => {
            let ghost fallback = Msg::Transfer { asset: sent, recipient: recovery_addr };
            assert(response.messages@ =~= Seq::<Msg>::empty());
            response.messages.push(Msg::Transfer { asset: sent, recipient: recovery_addr });
            assert(response.messages@ =~= seq![fallback]);
        },
    }
    Ok(UniversalSwapPlan { pre_swap_out_asset_amount, response })
}

} // verus!
