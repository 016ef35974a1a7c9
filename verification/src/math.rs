//! Fixed-point prices and fee fractions.

use vstd::prelude::*;
use crate::constants;
use crate::types::DecodeError;

verus! {

/// `numerator` per `denominator` on the fixed-point scale, rounded down.
/// Meaningful where the denominator is positive.
pub open spec fn scaled_ratio(numerator: int, denominator: int) -> int {
    numerator * (constants::SCALE as int) / denominator
}

/// The price of one vault's balance in units of the other's: nothing where
/// the other vault is empty.
pub open spec fn price_of(balance: u64, other: u64) -> Result<u128, DecodeError> {
    if other == 0 {
        Err(DecodeError::ArithmeticDivisionByZero)
    } else {
        Ok(scaled_ratio(balance as int, other as int) as u128)
    }
}

/// The fee fraction of `fee` charged on `charged_on`: nothing where the
/// base is zero or the fraction leaves the range of its type.
pub open spec fn fee_fraction_of(fee: int, charged_on: int) -> Result<u64, DecodeError> {
    if charged_on == 0 {
        Err(DecodeError::ArithmeticDivisionByZero)
    } else if scaled_ratio(fee, charged_on) > u64::MAX {
        Err(DecodeError::ArithmeticOverflow)
    } else {
        Ok(scaled_ratio(fee, charged_on) as u64)
    }
}

/// The sum of two amounts, where it fits.
pub open spec fn sum_of(a: u64, b: u64) -> Result<u64, DecodeError> {
    if a + b > u64::MAX {
        Err(DecodeError::ArithmeticOverflow)
    } else {
        Ok((a + b) as u64)
    }
}

/// The difference of two amounts, where it is not negative.
pub open spec fn difference_of(a: u64, b: u64) -> Result<u64, DecodeError> {
    if a < b {
        Err(DecodeError::ArithmeticOverflow)
    } else {
        Ok((a - b) as u64)
    }
}

/// A scaled ratio of non-negative numbers over a positive denominator lies
/// within one unit below the exact quotient: multiplied back by the
/// denominator it misses the scaled numerator by less than the denominator.
pub proof fn lemma_scaled_ratio_bounds(numerator: int, denominator: int)
    requires
        0 <= numerator,
        0 < denominator,
    ensures
        0 <= scaled_ratio(numerator, denominator),
        scaled_ratio(numerator, denominator) * denominator <= numerator * (constants::SCALE as int),
        numerator * (constants::SCALE as int) < (scaled_ratio(numerator, denominator) + 1)
            * denominator,
{
    let n = numerator * (constants::SCALE as int);
    assert(0 <= n);
    assert(0 <= n / denominator && (n / denominator) * denominator <= n && n < (n / denominator
        + 1) * denominator) by (nonlinear_arith)
        requires
            0 <= n,
            0 < denominator,
    ;
}

/// A part of a whole is at most 1 on the fixed-point scale.
pub proof fn lemma_scaled_ratio_of_part(part: int, whole: int)
    requires
        0 <= part <= whole,
        0 < whole,
    ensures
        0 <= scaled_ratio(part, whole) <= constants::SCALE,
{
    lemma_scaled_ratio_bounds(part, whole);
    let q = scaled_ratio(part, whole);
    let s = constants::SCALE as int;
    assert(q <= s) by (nonlinear_arith)
        requires
            q * whole <= part * s,
            0 <= part <= whole,
            0 < whole,
            0 <= q,
            s == 1_000_000_000,
    ;
}

/// Computes the price of one vault's balance in units of the other's.
pub fn price(balance: u64, other: u64) -> (r: Result<u128, DecodeError>)
    ensures
        r == price_of(balance, other),
{
    if other == 0 {
        return Err(DecodeError::ArithmeticDivisionByZero);
    }
    proof {
        lemma_scaled_ratio_bounds(balance as int, other as int);
    }
    let scaled: u128 = (balance as u128) * constants::SCALE;
    let r: u128 = scaled / (other as u128);
    Ok(r)
}

/// Computes the fee fraction of `fee` charged on `charged_on`.
pub fn fee_fraction(fee: u128, charged_on: u128) -> (r: Result<u64, DecodeError>)
    requires
        fee * constants::SCALE <= u128::MAX,
    ensures
        r == fee_fraction_of(fee as int, charged_on as int),
{
    if charged_on == 0 {
        return Err(DecodeError::ArithmeticDivisionByZero);
    }
    proof {
        lemma_scaled_ratio_bounds(fee as int, charged_on as int);
    }
    let scaled: u128 = fee * constants::SCALE;
    let q: u128 = scaled / charged_on;
    if q > u64::MAX as u128 {
        Err(DecodeError::ArithmeticOverflow)
    } else {
        Ok(q as u64)
    }
}

/// Adds two amounts.
pub fn sum(a: u64, b: u64) -> (r: Result<u64, DecodeError>)
    ensures
        r == sum_of(a, b),
{
    match a.checked_add(b) {
        Some(s) => Ok(s),
        None => Err(DecodeError::ArithmeticOverflow),
    }
}

/// Subtracts one amount from another.
pub fn difference(a: u64, b: u64) -> (r: Result<u64, DecodeError>)
    ensures
        r == difference_of(a, b),
{
    if a < b {
        Err(DecodeError::ArithmeticOverflow)
    } else {
        Ok(a - b)
    }
}

} // verus!
