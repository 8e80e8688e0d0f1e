use vstd::prelude::*;

use crate::error::PerpsError;
use crate::math::fees::lemma_product_fits_u128;
use crate::state::Side;

verus! {

/// Integer division rounding toward zero, as Rust's `/` on signed integers does.
pub open spec fn trunc_div(a: int, b: int) -> int
    recommends
        b > 0,
{
    if a >= 0 {
        a / b
    } else {
        -((-a) / b)
    }
}

/// The price move in the position's favour: `current - entry` for a long,
/// `entry - current` for a short.
pub open spec fn price_delta(side: Side, entry_price: i64, current_price: i64) -> int {
    match side {
        Side::Long => current_price - entry_price,
        Side::Short => entry_price - current_price,
    }
}

/// The exact profit (negative: loss) of a position:
/// `position_size * delta / entry_price`, rounded toward zero.
pub open spec fn spec_pnl(side: Side, position_size: u64, entry_price: i64, current_price: i64) -> int {
    trunc_div(price_delta(side, entry_price, current_price) * position_size, entry_price as int)
}

/// Collateral after booking `pnl`: a gain is added, a loss is taken off and
/// the result floors at zero. `None` when a gain takes it past `u64::MAX`.
pub open spec fn spec_equity_after_pnl(collateral: u64, pnl: i64) -> Option<u64> {
    if pnl >= 0 {
        if collateral + pnl <= u64::MAX {
            Some((collateral + pnl) as u64)
        } else {
            None
        }
    } else if collateral + pnl >= 0 {
        Some((collateral + pnl) as u64)
    } else {
        Some(0)
    }
}

/// An exact profit as an `i64` result: itself where it fits, `MathOverflow`
/// where it does not.
pub open spec fn fit_i64(x: int) -> Result<i64, PerpsError> {
    if i64::MIN <= x <= i64::MAX {
        Ok(x as i64)
    } else {
        Err(PerpsError::MathOverflow)
    }
}

/// The profit or loss of a position, refused unless both prices are positive;
/// `MathOverflow` where the exact value does not fit in an `i64`.
pub fn calculate_pnl(side: Side, position_size: u64, entry_price: i64, current_price: i64) -> (r: Result<i64, PerpsError>)
    ensures
        entry_price <= 0 || current_price <= 0 ==> r == Err::<i64, PerpsError>(PerpsError::InvalidPrice),
        entry_price > 0 && current_price > 0 ==> r == fit_i64(
            spec_pnl(side, position_size, entry_price, current_price),
        ),
{
    if entry_price <= 0 {
        return Err(PerpsError::InvalidPrice);
    }
    if current_price <= 0 {
        return Err(PerpsError::InvalidPrice);
    }
    let gain: bool = match side {
        Side::Long => current_price >= entry_price,
        Side::Short => entry_price >= current_price,
    };
    let magnitude: u64 = if current_price >= entry_price {
        (current_price - entry_price) as u64
    } else {
        (entry_price - current_price) as u64
    };
    proof {
        lemma_product_fits_u128(magnitude as int, position_size as int);
    }
    let product: u128 = (magnitude as u128) * (position_size as u128);
    let quotient: u128 = product / (entry_price as u128);
    proof {
        let d = price_delta(side, entry_price, current_price);
        if gain {
            assert(d == magnitude);
            assert(d * position_size == product);
        } else {
            assert(d == -magnitude);
            assert(d * position_size == -(product as int)) by (nonlinear_arith)
                requires
                    d == -magnitude,
                    product == magnitude * position_size,
            ;
        }
    }
    if gain {
        if quotient <= 0x7fff_ffff_ffff_ffffu128 {
            Ok(quotient as i64)
        } else {
            Err(PerpsError::MathOverflow)
        }
    } else if quotient < 0x8000_0000_0000_0000u128 {
        Ok(-(quotient as i64))
    } else if quotient == 0x8000_0000_0000_0000u128 {
        Ok(i64::MIN)
    } else {
        Err(PerpsError::MathOverflow)
    }
}

/// Collateral left once `pnl` is booked against it: gains must fit in 64 bits,
/// losses saturate at zero.
pub fn equity_after_pnl(collateral: u64, pnl: i64) -> (r: Result<u64, PerpsError>)
    ensures
        r == (match spec_equity_after_pnl(collateral, pnl) {
            Some(e) => Ok::<u64, PerpsError>(e),
            None => Err::<u64, PerpsError>(PerpsError::MathOverflow),
        }),
{
    if pnl >= 0 {
        match collateral.checked_add(pnl as u64) {
            Some(e) => Ok(e),
            None => Err(PerpsError::MathOverflow),
        }
    } else {
        let loss: u64 = if pnl == i64::MIN {
            0x8000_0000_0000_0000u64
        } else {
            (-pnl) as u64
        };
        Ok(collateral.saturating_sub(loss))
    }
}

} // verus!
