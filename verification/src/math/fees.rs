use vstd::prelude::*;

use crate::constants::BASIS_POINTS_DIVISOR;
use crate::error::PerpsError;

verus! {

/// An exact amount as a `u64` result: itself where it fits, `MathOverflow` where
/// it does not.
pub open spec fn fit_u64(x: int) -> Result<u64, PerpsError> {
    if 0 <= x <= u64::MAX {
        Ok(x as u64)
    } else {
        Err(PerpsError::MathOverflow)
    }
}

/// `amount * fee_bps / BASIS_POINTS_DIVISOR`, rounded down (exact; it exceeds
/// `u64::MAX` only when `fee_bps` exceeds the divisor).
pub open spec fn spec_fee(amount: u64, fee_bps: u16) -> int {
    (amount as int * fee_bps as int) / BASIS_POINTS_DIVISOR as int
}

/// A product of a 64-bit and a 64-bit unsigned value fits in 128 bits.
pub proof fn lemma_product_fits_u128(a: int, b: int)
    requires
        0 <= a <= u64::MAX,
        0 <= b <= u64::MAX,
    ensures
        0 <= a * b <= u64::MAX * u64::MAX,
        a * b < u128::MAX,
{
    assert(0 <= a * b <= u64::MAX * u64::MAX) by (nonlinear_arith)
        requires
            0 <= a <= u64::MAX,
            0 <= b <= u64::MAX,
    ;
}

/// A quotient of a 128-bit value as a `u64` result: the value itself where it
/// fits, `MathOverflow` where it does not.
pub fn checked_to_u64(value: u128) -> (r: Result<u64, PerpsError>)
    ensures
        r == fit_u64(value as int),
{
    if value <= u64::MAX as u128 {
        Ok(value as u64)
    } else {
        Err(PerpsError::MathOverflow)
    }
}

/// The fee of `fee_bps` basis points charged on `amount`.
pub fn fee(amount: u64, fee_bps: u16) -> (r: Result<u64, PerpsError>)
    ensures
        r == fit_u64(spec_fee(amount, fee_bps)),
{
    proof {
        lemma_product_fits_u128(amount as int, fee_bps as int);
    }
    let numerator: u128 = (amount as u128) * (fee_bps as u128);
    checked_to_u64(numerator / (BASIS_POINTS_DIVISOR as u128))
}

} // verus!
