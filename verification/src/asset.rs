use vstd::prelude::*;
use crate::error::{Overflow, OverflowOperation, SkipError};

verus! {

/// A native coin: a bank denomination and an amount.
#[derive(Debug, PartialEq, Eq)]
pub struct Coin {
    pub denom: String,
    pub amount: u128,
}

/// An amount of a CW20 token, named by its contract address.
#[derive(Debug, PartialEq, Eq)]
pub struct Cw20Coin {
    pub address: String,
    pub amount: u128,
}

/// An amount of some asset: a native coin or a CW20 token.
#[derive(Debug, PartialEq, Eq)]
pub enum Asset {
    Native(Coin),
    Cw20(Cw20Coin),
}

impl Clone for Coin {
    fn clone(&self) -> (res: Self)
        ensures
            res == *self,
    {
        Coin { denom: self.denom.clone(), amount: self.amount }
    }
}

impl Clone for Cw20Coin {
    fn clone(&self) -> (res: Self)
        ensures
            res == *self,
    {
        Cw20Coin { address: self.address.clone(), amount: self.amount }
    }
}

impl Clone for Asset {
    fn clone(&self) -> (res: Self)
        ensures
            res == *self,
    {
        match self {
            Asset::Native(c) => Asset::Native(c.clone()),
            Asset::Cw20(c) => Asset::Cw20(c.clone()),
        }
    }
}

impl Asset {
    /// The denomination of the asset: the bank denom of a coin, the contract of a token.
    pub open spec fn denom_of(&self) -> Seq<char> {
        match self {
            Asset::Native(c) => c.denom@,
            Asset::Cw20(c) => c.address@,
        }
    }

    pub open spec fn amount_of(&self) -> u128 {
        match self {
            Asset::Native(c) => c.amount,
            Asset::Cw20(c) => c.amount,
        }
    }

    pub open spec fn is_native(&self) -> bool {
        self is Native
    }

    /// The asset that `Asset::new` makes.
    pub open spec fn from_parts(denom: String, denom_is_address: bool, amount: u128) -> Asset {
        if denom_is_address {
            Asset::Cw20(Cw20Coin { address: denom, amount })
        } else {
            Asset::Native(Coin { denom, amount })
        }
    }

    /// The `String` that holds the denomination.
    pub open spec fn denom_string(self) -> String {
        match self {
            Asset::Native(c) => c.denom,
            Asset::Cw20(c) => c.address,
        }
    }

    /// The same asset with another amount.
    pub open spec fn with_amount(self, amount: u128) -> Asset {
        match self {
            Asset::Native(c) => Asset::Native(Coin { denom: c.denom, amount }),
            Asset::Cw20(c) => Asset::Cw20(Cw20Coin { address: c.address, amount }),
        }
    }

    pub fn denom(&self) -> (res: &String)
        ensures
            res@ == self.denom_of(),
            *res == self.denom_string(),
    {
        match self {
            Asset::Native(c) => &c.denom,
            Asset::Cw20(c) => &c.address,
        }
    }

    pub fn amount(&self) -> (res: u128)
        ensures
            res == self.amount_of(),
    {
        match self {
            Asset::Native(c) => c.amount,
            Asset::Cw20(c) => c.amount,
        }
    }

    /// An asset of `amount` in `denom`: a token when `denom` is an address of the chain,
    /// a native coin otherwise.
    pub fn new(denom: &String, denom_is_address: bool, amount: u128) -> (res: Asset)
        ensures
            res == Asset::from_parts(*denom, denom_is_address, amount),
            res.denom_of() == denom@,
            res.amount_of() == amount,
            res.is_native() == !denom_is_address,
    {
        if denom_is_address {
            Asset::Cw20(Cw20Coin { address: denom.clone(), amount })
        } else {
            Asset::Native(Coin { denom: denom.clone(), amount })
        }
    }

    /// Adds `amount`, failing on overflow with the asset unchanged.
    pub fn add(&mut self, amount: u128) -> (res: Result<(), SkipError>)
        ensures
            old(self).amount_of() + amount <= u128::MAX ==> res is Ok && *final(self)
                == old(self).with_amount((old(self).amount_of() + amount) as u128),
            old(self).amount_of() + amount > u128::MAX ==> res == Err::<(), SkipError>(
                SkipError::Overflow(
                    Overflow {
                        operation: OverflowOperation::Add,
                        operand1: old(self).amount_of(),
                        operand2: amount,
                    },
                ),
            ) && *final(self) == *old(self),
    {
        let cur = self.amount();
        match cur.checked_add(amount) {
            Some(v) => {
                match self {
                    Asset::Native(c) => c.amount = v,
                    Asset::Cw20(c) => c.amount = v,
                }
                Ok(())
            },
            None => Err(
                SkipError::Overflow(
                    Overflow { operation: OverflowOperation::Add, operand1: cur, operand2: amount },
                ),
            ),
        }
    }

    /// Subtracts `amount`, failing on underflow with the asset unchanged.
    pub fn sub(&mut self, amount: u128) -> (res: Result<(), SkipError>)
        ensures
            amount <= old(self).amount_of() ==> res is Ok && *final(self) == old(self).with_amount(
                (old(self).amount_of() - amount) as u128,
            ),
            amount > old(self).amount_of() ==> res == Err::<(), SkipError>(
                SkipError::Overflow(
                    Overflow {
                        operation: OverflowOperation::Sub,
                        operand1: old(self).amount_of(),
                        operand2: amount,
                    },
                ),
            ) && *final(self) == *old(self),
    {
        let cur = self.amount();
        if amount <= cur {
            match self {
                Asset::Native(c) => c.amount = cur - amount,
                Asset::Cw20(c) => c.amount = cur - amount,
            }
            Ok(())
        } else {
            Err(
                SkipError::Overflow(
                    Overflow { operation: OverflowOperation::Sub, operand1: cur, operand2: amount },
                ),
            )
        }
    }
}

/// The single coin attached to a call: exactly one coin, of a non-zero amount.
pub fn one_coin(funds: &Vec<Coin>) -> (res: Result<Coin, crate::error::PaymentError>)
    ensures
        funds@.len() == 0 ==> res == Err::<Coin, _>(crate::error::PaymentError::NoFunds),
        funds@.len() == 1 && funds@[0].amount == 0 ==> res == Err::<Coin, _>(
            crate::error::PaymentError::NoFunds,
        ),
        funds@.len() == 1 && funds@[0].amount != 0 ==> res == Ok::<_, crate::error::PaymentError>(
            funds@[0],
        ),
        funds@.len() > 1 ==> res == Err::<Coin, _>(crate::error::PaymentError::MultipleDenoms),
{
    if funds.len() == 0 {
        Err(crate::error::PaymentError::NoFunds)
    } else if funds.len() == 1 {
        if funds[0].amount == 0 {
            Err(crate::error::PaymentError::NoFunds)
        } else {
            Ok(funds[0].clone())
        }
    } else {
        Err(crate::error::PaymentError::MultipleDenoms)
    }
}

} // verus!
