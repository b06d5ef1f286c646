use vstd::prelude::*;
use crate::asset::{Asset, Coin};
use crate::swap::{Affiliate, Swap, SwapExactAssetIn, SwapExactAssetOut, SwapOperation};

verus! {

/// The value of an event attribute: text, or an amount written in decimal.
#[derive(Debug, PartialEq, Eq)]
pub enum AttrValue {
    Text(String),
    Amount(u128),
}

/// An attribute of the event that a call emits.
#[derive(Debug, PartialEq, Eq)]
pub struct Attribute {
    pub key: String,
    pub value: AttrValue,
}

/// What a contract call carries, before it is encoded. Post swap actions and IBC details
/// are carried in their encoding, as they were handed in.
#[derive(Debug, PartialEq, Eq)]
pub enum Call {
    /// The entry point's own user swap step.
    UserSwap { swap: Swap, min_asset: Asset, remaining_asset: Asset, affiliates: Vec<Affiliate> },
    /// The entry point's own post swap action step.
    PostSwapAction {
        min_asset: Asset,
        timeout_timestamp: u64,
        post_swap_action: Vec<u8>,
        exact_out: bool,
    },
    /// The entry point's swap and action.
    SwapAndAction {
        sent_asset: Option<Asset>,
        user_swap: Swap,
        min_asset: Asset,
        timeout_timestamp: u64,
        post_swap_action: Vec<u8>,
        affiliates: Vec<Affiliate>,
    },
    /// The entry point's swap and action with recovery.
    SwapAndActionWithRecover {
        sent_asset: Option<Asset>,
        user_swap: Swap,
        min_asset: Asset,
        timeout_timestamp: u64,
        post_swap_action: Vec<u8>,
        affiliates: Vec<Affiliate>,
        recovery_addr: String,
    },
    /// A swap adapter's swap, as the adapter message made from this swap.
    AdapterSwapExactIn(SwapExactAssetIn),
    /// A swap adapter's swap, as the adapter message made from this swap.
    AdapterSwapExactOut(SwapExactAssetOut),
    /// A swap adapter's swap through these operations.
    AdapterSwap { operations: Vec<SwapOperation> },
    /// An IBC transfer of `coin` with the encoded IBC details `ibc_info`.
    IbcTransfer { ibc_info: Vec<u8>, coin: Coin, timeout_timestamp: u64 },
    /// An IBC wasm transfer of `asset` with the encoded IBC wasm details `ibc_wasm_info`.
    IbcWasmTransfer { ibc_wasm_info: Vec<u8>, asset: Asset },
    /// Bytes handed in by the user, sent as they are.
    Raw(Vec<u8>),
}

/// A message that the contract sends.
#[derive(Debug, PartialEq, Eq)]
pub enum Msg {
    /// Sends `asset` to `recipient`: a bank send of a coin, a CW20 transfer of a token.
    Transfer { asset: Asset, recipient: String },
    /// Calls `contract` with `asset`: the call with the coin attached, or a CW20 send of
    /// the token to `contract` carrying the call.
    SendWithCall { asset: Asset, contract: String, call: Call },
    /// Calls `contract` with `funds` attached.
    Execute { contract: String, call: Call, funds: Vec<Coin> },
    /// Has the CW20 contract `token` send `amount` to `contract` with the call.
    Cw20Send { token: String, contract: String, amount: u128, call: Call },
    /// A bank send of one coin.
    BankSend { to_address: String, coin: Coin },
}

/// When the contract asks for the reply of a submessage.
#[derive(Debug, PartialEq, Eq)]
pub enum ReplyOn {
    Always,
    Success,
    Error,
    Never,
}

/// A message sent as a submessage: its reply comes back to the contract under `id`, as
/// `reply_on` says.
#[derive(Debug, PartialEq, Eq)]
pub struct SubMsg {
    pub id: u64,
    pub msg: Msg,
    pub reply_on: ReplyOn,
}

/// What a call of the contract answers: its messages, in order, and its attributes.
#[derive(Debug, PartialEq, Eq)]
pub struct Response {
    pub messages: Vec<Msg>,
    pub attributes: Vec<Attribute>,
}

/// Two calls that are the same: equal in every field, the lists that a call holds directly
/// holding the same items.
pub open spec fn same_call(a: Call, b: Call) -> bool {
    match (a, b) {
        (
            Call::UserSwap { swap: s1, min_asset: m1, remaining_asset: r1, affiliates: f1 },
            Call::UserSwap { swap: s2, min_asset: m2, remaining_asset: r2, affiliates: f2 },
        ) => s1 == s2 && m1 == m2 && r1 == r2 && f1@ == f2@,
        (
            Call::PostSwapAction {
                min_asset: m1,
                timeout_timestamp: t1,
                post_swap_action: p1,
                exact_out: x1,
            },
            Call::PostSwapAction {
                min_asset: m2,
                timeout_timestamp: t2,
                post_swap_action: p2,
                exact_out: x2,
            },
        ) => m1 == m2 && t1 == t2 && p1@ == p2@ && x1 == x2,
        (
            Call::SwapAndAction {
                sent_asset: a1,
                user_swap: s1,
                min_asset: m1,
                timeout_timestamp: t1,
                post_swap_action: p1,
                affiliates: f1,
            },
            Call::SwapAndAction {
                sent_asset: a2,
                user_swap: s2,
                min_asset: m2,
                timeout_timestamp: t2,
                post_swap_action: p2,
                affiliates: f2,
            },
        ) => a1 == a2 && s1 == s2 && m1 == m2 && t1 == t2 && p1@ == p2@ && f1@ == f2@,
        (
            Call::SwapAndActionWithRecover {
                sent_asset: a1,
                user_swap: s1,
                min_asset: m1,
                timeout_timestamp: t1,
                post_swap_action: p1,
                affiliates: f1,
                recovery_addr: r1,
            },
            Call::SwapAndActionWithRecover {
                sent_asset: a2,
                user_swap: s2,
                min_asset: m2,
                timeout_timestamp: t2,
                post_swap_action: p2,
                affiliates: f2,
                recovery_addr: r2,
            },
        ) => a1 == a2 && s1 == s2 && m1 == m2 && t1 == t2 && p1@ == p2@ && f1@ == f2@ && r1 == r2,
        (Call::AdapterSwap { operations: o1 }, Call::AdapterSwap { operations: o2 }) => o1@ == o2@,
        (
            Call::IbcTransfer { ibc_info: i1, coin: c1, timeout_timestamp: t1 },
            Call::IbcTransfer { ibc_info: i2, coin: c2, timeout_timestamp: t2 },
        ) => i1@ == i2@ && c1 == c2 && t1 == t2,
        (
            Call::IbcWasmTransfer { ibc_wasm_info: i1, asset: a1 },
            Call::IbcWasmTransfer { ibc_wasm_info: i2, asset: a2 },
        ) => i1@ == i2@ && a1 == a2,
        (Call::Raw(v1), Call::Raw(v2)) => v1@ == v2@,
        _ => a == b,
    }
}

/// Two messages that are the same: equal in every field, their calls the same and their
/// coins the same list.
pub open spec fn same_msg(a: Msg, b: Msg) -> bool {
    match (a, b) {
        (
            Msg::Execute { contract: c1, call: k1, funds: f1 },
            Msg::Execute { contract: c2, call: k2, funds: f2 },
        ) => c1 == c2 && same_call(k1, k2) && f1@ == f2@,
        (
            Msg::SendWithCall { asset: a1, contract: c1, call: k1 },
            Msg::SendWithCall { asset: a2, contract: c2, call: k2 },
        ) => a1 == a2 && c1 == c2 && same_call(k1, k2),
        (
            Msg::Cw20Send { token: t1, contract: c1, amount: n1, call: k1 },
            Msg::Cw20Send { token: t2, contract: c2, amount: n2, call: k2 },
        ) => t1 == t2 && c1 == c2 && n1 == n2 && same_call(k1, k2),
        _ => a == b,
    }
}

/// The character of a decimal digit.
pub open spec fn digit_char(d: nat) -> char {
    ((d + ('0' as nat)) as u32) as char
}

/// `n` written in decimal, without leading zeros.
pub open spec fn decimal_text(n: nat) -> Seq<char>
    decreases n,
{
    if n < 10 {
        seq![digit_char(n)]
    } else {
        decimal_text(n / 10).push(digit_char(n % 10))
    }
}

impl View for Attribute {
    /// The key and the text of the value.
    type V = (Seq<char>, Seq<char>);

    open spec fn view(&self) -> (Seq<char>, Seq<char>) {
        (
            self.key@,
            match self.value {
                AttrValue::Text(t) => t@,
                AttrValue::Amount(v) => decimal_text(v as nat),
            },
        )
    }
}

/// The keys and values of a list of attributes.
pub open spec fn attr_views(attrs: Seq<Attribute>) -> Seq<(Seq<char>, Seq<char>)> {
    attrs.map_values(|a: Attribute| a@)
}

/// A `String` with the text of `s`.
pub fn text(s: &str) -> (res: String)
    ensures
        res@ == s@,
{
    proof {
        broadcast use vstd::string::to_string_from_display_ensures_for_str;
    }
    s.to_string()
}

pub fn attr(key: &str, value: &str) -> (res: Attribute)
    ensures
        res@ == (key@, value@),
{
    Attribute { key: text(key), value: AttrValue::Text(text(value)) }
}

pub fn attr_string(key: &str, value: &String) -> (res: Attribute)
    ensures
        res@ == (key@, value@),
{
    Attribute { key: text(key), value: AttrValue::Text(value.clone()) }
}

pub fn attr_amount(key: &str, value: u128) -> (res: Attribute)
    ensures
        res@ == (key@, decimal_text(value as nat)),
{
    Attribute { key: text(key), value: AttrValue::Amount(value) }
}

pub fn action(value: &str) -> (res: Attribute)
    ensures
        res@ == ("action"@, value@),
{
    attr("action", value)
}

impl Response {
    /// A response with no messages and no attributes.
    pub fn new() -> (res: Response)
        ensures
            res.messages@.len() == 0,
            res.attributes@.len() == 0,
    {
        Response { messages: Vec::new(), attributes: Vec::new() }
    }
}

} // verus!
