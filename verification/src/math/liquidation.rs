use vstd::prelude::*;

use crate::constants::BASIS_POINTS_DIVISOR;
use crate::error::PerpsError;
use crate::math::fees::{checked_to_u64, fit_u64, lemma_product_fits_u128};

verus! {

/// The equity a position of `position_size` must keep: `maintenance_margin_bps`
/// basis points of its size, rounded down (exact).
pub open spec fn spec_maintenance_requirement(position_size: u64, maintenance_margin_bps: u16) -> int {
    (position_size as int * maintenance_margin_bps as int) / BASIS_POINTS_DIVISOR as int
}

/// Equity as a share of position size, in basis points (rounded down, exact);
/// a position of size zero has ratio zero.
pub open spec fn spec_margin_ratio_bps(equity: u64, position_size: u64) -> int {
    if position_size == 0 {
        0
    } else {
        (equity as int * BASIS_POINTS_DIVISOR as int) / position_size as int
    }
}

/// The maintenance margin a position of `position_size` must keep;
/// `MathOverflow` where it does not fit in 64 bits.
pub fn maintenance_requirement(position_size: u64, maintenance_margin_bps: u16) -> (r: Result<u64, PerpsError>)
    ensures
        r == fit_u64(spec_maintenance_requirement(position_size, maintenance_margin_bps)),
{
    proof {
        lemma_product_fits_u128(position_size as int, maintenance_margin_bps as int);
    }
    let product: u128 = (position_size as u128) * (maintenance_margin_bps as u128);
    checked_to_u64(product / (BASIS_POINTS_DIVISOR as u128))
}

/// The margin ratio, in basis points, of a position with `equity` and
/// `position_size`; `MathOverflow` where it does not fit in 64 bits.
pub fn margin_ratio_bps(equity: u64, position_size: u64) -> (r: Result<u64, PerpsError>)
    ensures
        r == fit_u64(spec_margin_ratio_bps(equity, position_size)),
{
    if position_size == 0 {
        return Ok(0);
    }
    proof {
        lemma_product_fits_u128(equity as int, BASIS_POINTS_DIVISOR as int);
    }
    let product: u128 = (equity as u128) * (BASIS_POINTS_DIVISOR as u128);
    checked_to_u64(product / (position_size as u128))
}

} // verus!
