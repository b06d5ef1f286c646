use vstd::prelude::*;

verus! {

/// The arithmetic operation that overflowed.
#[derive(Debug, PartialEq, Eq)]
pub enum OverflowOperation {
    Add,
    Sub,
}

/// A checked operation on two amounts whose result does not fit.
#[derive(Debug, PartialEq, Eq)]
pub struct Overflow {
    pub operation: OverflowOperation,
    pub operand1: u128,
    pub operand2: u128,
}

/// Errors of the funds attached to a call.
#[derive(Debug, PartialEq, Eq)]
pub enum PaymentError {
    NoFunds,
    MultipleDenoms,
}

/// Errors of the swap and asset helpers.
#[derive(Debug, PartialEq, Eq)]
pub enum SkipError {
    RoutesEmpty,
    SwapOperationsEmpty,
    SwapOperationsAssetInDenomMismatch,
    SwapOperationsAssetOutDenomMismatch,
    Overflow(Overflow),
    /// Refused by a helper outside this library, with its message.
    Other(String),
}

/// An error of the chain's standard library.
#[derive(Debug, PartialEq, Eq)]
pub enum StdError {
    /// A generic error with its message.
    GenericErr(String),
    /// Text that is not base64, with the decoder's message.
    InvalidBase64(String),
    /// Any other error (storage, address checks, encodings), with its text.
    Other(String),
}

/// Every way in which a call of the contract can fail.
#[derive(Debug, PartialEq, Eq)]
pub enum ContractError {
    /// An error of the chain's standard library.
    Std(StdError),
    Overflow(Overflow),
    Payment(PaymentError),
    Skip(SkipError),
    /// The caller is not the administrator.
    NotAdmin,
    Unauthorized,
    Timeout,
    DuplicateSwapVenueName,
    FeeSwapWithoutIbcFees,
    FeeSwapAssetInDenomMismatch,
    IBCFeeDenomDiffersFromAssetReceived,
    UserSwapAssetInDenomMismatch,
    NoRefundAddress,
    ReceivedLessAssetFromSwapsThanMinAsset,
    NonNativeIbcTransfer,
    ContractCallAddressBlocked,
}

} // verus!

verus! {

impl Clone for OverflowOperation {
    fn clone(&self) -> (res: Self)
        ensures
            res == *self,
    {
        match self {
            OverflowOperation::Add => OverflowOperation::Add,
            OverflowOperation::Sub => OverflowOperation::Sub,
        }
    }
}

impl Clone for Overflow {
    fn clone(&self) -> (res: Self)
        ensures
            res == *self,
    {
        Overflow { operation: self.operation.clone(), operand1: self.operand1, operand2: self.operand2 }
    }
}

impl Clone for PaymentError {
    fn clone(&self) -> (res: Self)
        ensures
            res == *self,
    {
        match self {
            PaymentError::NoFunds => PaymentError::NoFunds,
            PaymentError::MultipleDenoms => PaymentError::MultipleDenoms,
        }
    }
}

impl Clone for SkipError {
    fn clone(&self) -> (res: Self)
        ensures
            res == *self,
    {
        match self {
            SkipError::RoutesEmpty => SkipError::RoutesEmpty,
            SkipError::SwapOperationsEmpty => SkipError::SwapOperationsEmpty,
            SkipError::SwapOperationsAssetInDenomMismatch => SkipError::SwapOperationsAssetInDenomMismatch,
            SkipError::SwapOperationsAssetOutDenomMismatch => SkipError::SwapOperationsAssetOutDenomMismatch,
            SkipError::Overflow(o) => SkipError::Overflow(o.clone()),
            SkipError::Other(m) => SkipError::Other(m.clone()),
        }
    }
}

impl Clone for ContractError {
    fn clone(&self) -> (res: Self)
        ensures
            res == *self,
    {
        match self {
            ContractError::Std(StdError::GenericErr(m)) => ContractError::Std(StdError::GenericErr(m.clone())),
            ContractError::Std(StdError::InvalidBase64(m)) => ContractError::Std(StdError::InvalidBase64(m.clone())),
            ContractError::Std(StdError::Other(m)) => ContractError::Std(StdError::Other(m.clone())),
            ContractError::Overflow(o) => ContractError::Overflow(o.clone()),
            ContractError::Payment(p) => ContractError::Payment(p.clone()),
            ContractError::Skip(e) => ContractError::Skip(e.clone()),
            ContractError::NotAdmin => ContractError::NotAdmin,
            ContractError::Unauthorized => ContractError::Unauthorized,
            ContractError::Timeout => ContractError::Timeout,
            ContractError::DuplicateSwapVenueName => ContractError::DuplicateSwapVenueName,
            ContractError::FeeSwapWithoutIbcFees => ContractError::FeeSwapWithoutIbcFees,
            ContractError::FeeSwapAssetInDenomMismatch => ContractError::FeeSwapAssetInDenomMismatch,
            ContractError::IBCFeeDenomDiffersFromAssetReceived => ContractError::IBCFeeDenomDiffersFromAssetReceived,
            ContractError::UserSwapAssetInDenomMismatch => ContractError::UserSwapAssetInDenomMismatch,
            ContractError::NoRefundAddress => ContractError::NoRefundAddress,
            ContractError::ReceivedLessAssetFromSwapsThanMinAsset => ContractError::ReceivedLessAssetFromSwapsThanMinAsset,
            ContractError::NonNativeIbcTransfer => ContractError::NonNativeIbcTransfer,
            ContractError::ContractCallAddressBlocked => ContractError::ContractCallAddressBlocked,
        }
    }
}

} // verus!
