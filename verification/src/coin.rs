//! Denominated amounts.

use vstd::prelude::*;
use crate::math::MathError;

verus! {

/// An amount of one denomination.
#[derive(Debug, PartialEq, Eq)]
pub struct Coin {
    pub denom: String,
    pub amount: u128,
}

impl Clone for Coin {
    fn clone(&self) -> (r: Coin)
        ensures
            r == *self,
    {
        Coin { denom: self.denom.clone(), amount: self.amount }
    }
}

impl Coin {
    /// A coin of the given amount and denomination.
    pub fn new(amount: u128, denom: &str) -> (r: Coin)
        ensures
            r.amount == amount,
            r.denom@ == denom@,
    {
        Coin { denom: denom.to_owned(), amount }
    }

    /// A zero coin of the same denomination.
    pub fn empty_of(&self) -> (r: Coin)
        ensures
            r.denom == self.denom,
            r.amount == 0,
    {
        Coin { denom: self.denom.clone(), amount: 0 }
    }

    /// The sum of two coins of one denomination, or `Overflow`.
    pub fn checked_add(&self, other: &Coin) -> (r: Result<Coin, MathError>)
        requires
            self.denom@ == other.denom@,
        ensures
            self.amount + other.amount <= u128::MAX ==> (r matches Ok(c) && c.denom == self.denom
                && c.amount == self.amount + other.amount),
            self.amount + other.amount > u128::MAX ==> r == Err::<Coin, MathError>(
                MathError::Overflow,
            ),
    {
        match self.amount.checked_add(other.amount) {
            Some(amount) => Ok(Coin { denom: self.denom.clone(), amount }),
            None => Err(MathError::Overflow),
        }
    }

    /// The difference of two coins of one denomination, or `Underflow`.
    pub fn checked_sub(&self, other: &Coin) -> (r: Result<Coin, MathError>)
        requires
            self.denom@ == other.denom@,
        ensures
            other.amount <= self.amount ==> (r matches Ok(c) && c.denom == self.denom && c.amount
                == self.amount - other.amount),
            other.amount > self.amount ==> r == Err::<Coin, MathError>(MathError::Underflow),
    {
        match self.amount.checked_sub(other.amount) {
            Some(amount) => Ok(Coin { denom: self.denom.clone(), amount }),
            None => Err(MathError::Underflow),
        }
    }

    /// The same denomination with `amount` added, or `Overflow`.
    pub fn add_amount(&self, amount: u128) -> (r: Result<Coin, MathError>)
        ensures
            self.amount + amount <= u128::MAX ==> (r matches Ok(c) && c.denom == self.denom
                && c.amount == self.amount + amount),
            self.amount + amount > u128::MAX ==> r == Err::<Coin, MathError>(MathError::Overflow),
    {
        match self.amount.checked_add(amount) {
            Some(total) => Ok(Coin { denom: self.denom.clone(), amount: total }),
            None => Err(MathError::Overflow),
        }
    }
}

} // verus!
