//! Fixed-point fractions and the ratio arithmetic the engine is built on.

use vstd::prelude::*;

verus! {

/// Number of atomic units in one whole: fractions carry eighteen decimal
/// places.
pub const DECIMAL_FRACTIONAL: u128 = 1_000_000_000_000_000_000;

/// One percent, in atomic units.
pub const PERCENT_ATOMICS: u128 = 10_000_000_000_000_000;

/// A non-negative fixed-point fraction with eighteen decimal places, held as
/// its numerator over [`DECIMAL_FRACTIONAL`].
#[derive(Clone, Copy, PartialEq, Eq, Structural, Debug)]
pub struct Decimal {
    pub atomics: u128,
}

/// Why a ratio computation could not produce a value.
#[derive(Clone, Copy, PartialEq, Eq, Structural, Debug)]
pub enum MathError {
    DivideByZero,
    Overflow,
    Underflow,
}

/// `floor(value * numerator / denominator)` over the unbounded integers.
pub open spec fn ratio_floor(value: int, numerator: int, denominator: int) -> int {
    (value * numerator) / denominator
}

/// Relies on `cosmwasm_std::Uint128::checked_multiply_ratio`: the product is
/// taken in 256 bits and divided by the denominator, so the result is exactly
/// `floor(value * numerator / denominator)`; `DivideByZero` comes if and only
/// if the denominator is zero, and `Overflow` if and only if that quotient
/// exceeds `u128::MAX`.
#[verifier::external_body]
pub(crate) fn mul_ratio_u128(value: u128, numerator: u128, denominator: u128) -> (r: Result<
    u128,
    MathError,
>)
    ensures
        r == (if denominator == 0 {
            Err::<u128, MathError>(MathError::DivideByZero)
        } else if ratio_floor(value as int, numerator as int, denominator as int) > u128::MAX {
            Err::<u128, MathError>(MathError::Overflow)
        } else {
            Ok::<u128, MathError>(
                ratio_floor(value as int, numerator as int, denominator as int) as u128,
            )
        }),
{
    match cosmwasm_std::Uint128::new(value).checked_multiply_ratio(numerator, denominator) {
        Ok(v) => Ok(v.u128()),
        Err(cosmwasm_std::CheckedMultiplyRatioError::DivideByZero) => Err(MathError::DivideByZero),
        Err(cosmwasm_std::CheckedMultiplyRatioError::Overflow) => Err(MathError::Overflow),
    }
}

impl Decimal {
    /// The fraction zero.
    pub fn zero() -> (r: Decimal)
        ensures
            r.atomics == 0,
    {
        Decimal { atomics: 0 }
    }

    /// The fraction one.
    pub fn one() -> (r: Decimal)
        ensures
            r.atomics == DECIMAL_FRACTIONAL,
    {
        Decimal { atomics: DECIMAL_FRACTIONAL }
    }

    /// `p` percent, exactly.
    pub fn percent(p: u64) -> (r: Decimal)
        ensures
            r.atomics == p * PERCENT_ATOMICS,
    {
        proof {
            assert((p as int) * (PERCENT_ATOMICS as int) <= (u64::MAX as int) * (
            PERCENT_ATOMICS as int)) by (nonlinear_arith)
                requires
                    p <= u64::MAX,
            ;
        }
        Decimal { atomics: (p as u128) * PERCENT_ATOMICS }
    }

    /// The fraction with the given numerator over [`DECIMAL_FRACTIONAL`].
    pub fn from_atomics(atomics: u128) -> (r: Decimal)
        ensures
            r.atomics == atomics,
    {
        Decimal { atomics }
    }

    /// `floor(numerator / denominator)` to eighteen decimal places.
    pub fn from_ratio(numerator: u128, denominator: u128) -> (r: Result<Decimal, MathError>)
        ensures
            denominator == 0 ==> r == Err::<Decimal, MathError>(MathError::DivideByZero),
            denominator != 0 && ratio_floor(
                numerator as int,
                DECIMAL_FRACTIONAL as int,
                denominator as int,
            ) > u128::MAX ==> r == Err::<Decimal, MathError>(MathError::Overflow),
            denominator != 0 && ratio_floor(
                numerator as int,
                DECIMAL_FRACTIONAL as int,
                denominator as int,
            ) <= u128::MAX ==> r == Ok::<Decimal, MathError>(
                Decimal {
                    atomics: ratio_floor(
                        numerator as int,
                        DECIMAL_FRACTIONAL as int,
                        denominator as int,
                    ) as u128,
                },
            ),
    {
        match mul_ratio_u128(numerator, DECIMAL_FRACTIONAL, denominator) {
            Ok(atomics) => Ok(Decimal { atomics }),
            Err(e) => Err(e),
        }
    }

    /// Whether the fraction is zero.
    pub fn is_zero(&self) -> (r: bool)
        ensures
            r == (self.atomics == 0),
    {
        self.atomics == 0
    }

    /// The sum of two fractions, or `Overflow`.
    pub fn checked_add(self, other: Decimal) -> (r: Result<Decimal, MathError>)
        ensures
            self.atomics + other.atomics <= u128::MAX ==> r == Ok::<Decimal, MathError>(
                Decimal { atomics: (self.atomics + other.atomics) as u128 },
            ),
            self.atomics + other.atomics > u128::MAX ==> r == Err::<Decimal, MathError>(
                MathError::Overflow,
            ),
    {
        match self.atomics.checked_add(other.atomics) {
            Some(atomics) => Ok(Decimal { atomics }),
            None => Err(MathError::Overflow),
        }
    }
}

/// `floor(amount * d)`: an amount scaled down by a fraction.
pub open spec fn mul_floor_spec(amount: int, atomics: int) -> int {
    ratio_floor(amount, atomics, DECIMAL_FRACTIONAL as int)
}

/// `floor(amount * d)` for a whole amount and a fraction, or `Overflow` where
/// the result does not fit in 128 bits.
pub fn mul_floor(amount: u128, d: Decimal) -> (r: Result<u128, MathError>)
    ensures
        mul_floor_spec(amount as int, d.atomics as int) <= u128::MAX ==> r == Ok::<
            u128,
            MathError,
        >(mul_floor_spec(amount as int, d.atomics as int) as u128),
        mul_floor_spec(amount as int, d.atomics as int) > u128::MAX ==> r == Err::<
            u128,
            MathError,
        >(MathError::Overflow),
{
    mul_ratio_u128(amount, d.atomics, DECIMAL_FRACTIONAL)
}

/// Scaling by a fraction no greater than one cannot grow an amount.
pub proof fn lemma_ratio_floor_le_self(x: int, n: int, d: int)
    requires
        x >= 0,
        0 <= n <= d,
        d > 0,
    ensures
        0 <= ratio_floor(x, n, d) <= x,
{
    assert(x * n >= 0 && x * n <= x * d && x * d == d * x) by (nonlinear_arith)
        requires
            x >= 0,
            0 <= n <= d,
    ;
    vstd::arithmetic::div_mod::lemma_div_is_ordered(x * n, x * d, d);
    vstd::arithmetic::div_mod::lemma_div_multiples_vanish(x, d);
    assert((d * x) / d == x);
    vstd::arithmetic::div_mod::lemma_div_pos_is_pos(x * n, d);
}

/// `floor(amount / d)`: an amount divided by a fraction.
pub open spec fn div_floor_spec(amount: int, atomics: int) -> int {
    ratio_floor(amount, DECIMAL_FRACTIONAL as int, atomics)
}

/// `floor(amount / d)` for a whole amount and a non-zero fraction.
pub fn div_floor(amount: u128, d: Decimal) -> (r: Result<u128, MathError>)
    ensures
        d.atomics == 0 ==> r == Err::<u128, MathError>(MathError::DivideByZero),
        d.atomics != 0 && div_floor_spec(amount as int, d.atomics as int) <= u128::MAX ==> r
            == Ok::<u128, MathError>(div_floor_spec(amount as int, d.atomics as int) as u128),
        d.atomics != 0 && div_floor_spec(amount as int, d.atomics as int) > u128::MAX ==> r
            == Err::<u128, MathError>(MathError::Overflow),
{
    mul_ratio_u128(amount, DECIMAL_FRACTIONAL, d.atomics)
}

} // verus!
