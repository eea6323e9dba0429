//! Checked fixed-point arithmetic over the 64- and 128-bit unsigned domains.
//!
//! Every arithmetic step on a reserve or fee quantity goes through one of
//! these helpers: addition and multiplication reject with `MathOverflow`,
//! subtraction with `MathUnderflow`, division with `MathDivisionByZero`.
//! Products of two 64-bit quantities are always formed in the 128-bit domain,
//! so no intermediate result is lost before its check can fire.

use vstd::prelude::*;

use crate::errors::CustomError;

verus! {

use vstd::arithmetic::mul::lemma_mul_upper_bound;

/// The product of two 64-bit values always fits in 128 bits.
proof fn lemma_u64_product_fits(a: u64, b: u64)
    ensures
        a * b <= u128::MAX,
{
    lemma_mul_upper_bound(a as int, u64::MAX as int, b as int, u64::MAX as int);
}

/// Checked 64-bit addition: `Ok(a + b)` exactly when the sum fits.
pub fn checked_add_u64(a: u64, b: u64) -> (r: Result<u64, CustomError>)
    ensures
        a + b <= u64::MAX ==> r == Ok::<u64, CustomError>((a + b) as u64),
        a + b > u64::MAX ==> r == Err::<u64, CustomError>(CustomError::MathOverflow),
{
    if a <= u64::MAX - b {
        Ok(a + b)
    } else {
        Err(CustomError::MathOverflow)
    }
}

/// Checked 64-bit subtraction: `Ok(a - b)` exactly when `b <= a`.
pub fn checked_sub_u64(a: u64, b: u64) -> (r: Result<u64, CustomError>)
    ensures
        b <= a ==> r == Ok::<u64, CustomError>((a - b) as u64),
        b > a ==> r == Err::<u64, CustomError>(CustomError::MathUnderflow),
{
    if b <= a {
        Ok(a - b)
    } else {
        Err(CustomError::MathUnderflow)
    }
}

/// Checked 64-bit multiplication: `Ok(a * b)` exactly when the product fits.
pub fn checked_mul_u64(a: u64, b: u64) -> (r: Result<u64, CustomError>)
    ensures
        a * b <= u64::MAX ==> r == Ok::<u64, CustomError>((a * b) as u64),
        a * b > u64::MAX ==> r == Err::<u64, CustomError>(CustomError::MathOverflow),
{
    proof {
        lemma_u64_product_fits(a, b);
    }
    let wide: u128 = (a as u128) * (b as u128);
    if wide <= u64::MAX as u128 {
        Ok(wide as u64)
    } else {
        Err(CustomError::MathOverflow)
    }
}

/// Checked 64-bit division: `Ok(a / b)` exactly when the divisor is nonzero.
pub fn checked_div_u64(a: u64, b: u64) -> (r: Result<u64, CustomError>)
    ensures
        b != 0 ==> r == Ok::<u64, CustomError>((a as int / b as int) as u64),
        b == 0 ==> r == Err::<u64, CustomError>(CustomError::MathDivisionByZero),
{
    if b != 0 {
        Ok(a / b)
    } else {
        Err(CustomError::MathDivisionByZero)
    }
}

/// Checked 128-bit subtraction: `Ok(a - b)` exactly when `b <= a`.
pub fn checked_sub_u128(a: u128, b: u128) -> (r: Result<u128, CustomError>)
    ensures
        b <= a ==> r == Ok::<u128, CustomError>((a - b) as u128),
        b > a ==> r == Err::<u128, CustomError>(CustomError::MathUnderflow),
{
    if b <= a {
        Ok(a - b)
    } else {
        Err(CustomError::MathUnderflow)
    }
}

/// Checked 128-bit division: `Ok(a / b)` exactly when the divisor is nonzero.
pub fn checked_div_u128(a: u128, b: u128) -> (r: Result<u128, CustomError>)
    ensures
        b != 0 ==> r == Ok::<u128, CustomError>((a as int / b as int) as u128),
        b == 0 ==> r == Err::<u128, CustomError>(CustomError::MathDivisionByZero),
{
    if b != 0 {
        Ok(a / b)
    } else {
        Err(CustomError::MathDivisionByZero)
    }
}

/// The product of two 64-bit quantities, formed in the 128-bit domain where
/// it can never overflow.
pub fn widening_mul_u64(a: u64, b: u64) -> (r: u128)
    ensures
        r == a * b,
{
    proof {
        lemma_u64_product_fits(a, b);
    }
    (a as u128) * (b as u128)
}

/// Narrows a 128-bit quantity back to 64 bits: `Ok` exactly when it fits.
pub fn narrow_to_u64(a: u128) -> (r: Result<u64, CustomError>)
    ensures
        a <= u64::MAX ==> r == Ok::<u64, CustomError>(a as u64),
        a > u64::MAX ==> r == Err::<u64, CustomError>(CustomError::MathOverflow),
{
    if a <= u64::MAX as u128 {
        Ok(a as u64)
    } else {
        Err(CustomError::MathOverflow)
    }
}

} // verus!
