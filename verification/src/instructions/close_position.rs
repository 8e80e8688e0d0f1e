use vstd::prelude::*;

use crate::error::PerpsError;
use crate::math::fees::{fee, fit_u64, spec_fee};
use crate::math::pnl::{calculate_pnl, equity_after_pnl, fit_i64, spec_equity_after_pnl, spec_pnl};
use crate::math::{load_price_with_checks, min_i64, min_of_i64, min_of_u64, min_u64, spec_load_price_with_checks};
use crate::state::{Address, GlobalState, LiquidityPool, Market, Position, Treasury};

verus! {

/// What closing a position reads and writes.
#[derive(Debug, Clone, Copy, PartialEq, Eq)]
pub struct ClosePosition {
    pub global_state: GlobalState,
    pub user: Address,
    pub market: Market,
    pub pool: LiquidityPool,
    pub position: Position,
    /// Address of the oracle account the caller supplied.
    pub oracle: Address,
    pub treasury: Treasury,
}

/// How a closed position was settled: its profit or loss, the fee the
/// treasury takes, and what the vault pays back to the owner.
#[derive(Debug, Clone, Copy, PartialEq, Eq)]
pub struct ClosedPosition {
    pub pnl: i64,
    pub close_fee: u64,
    pub payout: u64,
}

/// The checks made before the oracle is read: the market is the one asked
/// for, the oracle account is the market's, and the caller owns the position.
pub open spec fn spec_close_precheck(a: ClosePosition, market_id: u16) -> Option<PerpsError> {
    if a.market.market_id != market_id {
        Some(PerpsError::InvalidMarket)
    } else if a.market.oracle@ != a.oracle@ {
        Some(PerpsError::InvalidOracle)
    } else if a.position.owner@ != a.user@ {
        Some(PerpsError::InvalidOwner)
    } else {
        None
    }
}

/// The oracle read the close uses: the stricter of the market's and the
/// protocol's staleness and confidence limits.
pub open spec fn spec_close_price(a: ClosePosition, oracle_data: Seq<u8>, now: i64) -> Result<i64, PerpsError> {
    spec_load_price_with_checks(
        oracle_data,
        now,
        min_i64(a.market.max_staleness_seconds, a.global_state.max_staleness_seconds),
        min_u64(a.market.max_confidence_bps, a.global_state.max_confidence_bps),
    )
}

/// Settling the position at `current_price`: the new pool and treasury, and
/// the settlement, or the error that stops it. The vault pays out the equity
/// (`collateral + pnl`), split into the close fee and the payout, and the pool
/// releases exactly that: the position's collateral leaves the locked total and
/// the profit (or loss) leaves (or joins) the liquidity.
pub open spec fn spec_settle_close(a: ClosePosition, current_price: i64) -> Result<(LiquidityPool, Treasury, ClosedPosition), PerpsError> {
    let position = a.position;
    if position.entry_price <= 0 || current_price <= 0 {
        Err(PerpsError::InvalidPrice)
    } else {
        match fit_i64(spec_pnl(position.side, position.position_size, position.entry_price, current_price)) {
            Err(e) => Err(e),
            Ok(pnl) => if (pnl as int) < -(position.collateral as int) {
                Err(PerpsError::PositionHealthy)
            } else {
                match spec_equity_after_pnl(position.collateral, pnl) {
                    None => Err(PerpsError::MathOverflow),
                    Some(equity) => match fit_u64(spec_fee(equity, a.market.close_fee_bps)) {
                        Err(e) => Err(e),
                        Ok(close_fee) => {
                            let payout = if equity >= close_fee { (equity - close_fee) as u64 } else { 0u64 };
                            let liquidity = a.pool.total_liquidity - pnl;
                            if a.pool.locked_collateral < position.collateral {
                                Err(PerpsError::MathUnderflow)
                            } else if liquidity < 0 {
                                Err(PerpsError::MathUnderflow)
                            } else if liquidity > u64::MAX {
                                Err(PerpsError::MathOverflow)
                            } else if close_fee > 0 && a.treasury.collected_fees + close_fee > u64::MAX {
                                Err(PerpsError::MathOverflow)
                            } else {
                                Ok((
                                    LiquidityPool {
                                        locked_collateral: (a.pool.locked_collateral - position.collateral) as u64,
                                        total_liquidity: liquidity as u64,
                                        ..a.pool
                                    },
                                    Treasury {
                                        collected_fees: if close_fee > 0 {
                                            (a.treasury.collected_fees + close_fee) as u64
                                        } else {
                                            a.treasury.collected_fees
                                        },
                                        ..a.treasury
                                    },
                                    ClosedPosition { pnl, close_fee, payout },
                                ))
                            }
                        },
                    },
                }
            },
        }
    }
}

/// Closing the position given the outcome of the oracle read: the accounts
/// afterwards and the result. A refused close leaves every account as it was.
pub open spec fn spec_close_position(
    a: ClosePosition,
    market_id: u16,
    price: Result<i64, PerpsError>,
) -> (ClosePosition, Result<ClosedPosition, PerpsError>) {
    match spec_close_precheck(a, market_id) {
        Some(e) => (a, Err(e)),
        None => match price {
            Err(e) => (a, Err(e)),
            Ok(p) => match spec_settle_close(a, p) {
                Err(e) => (a, Err(e)),
                Ok(settled) => (
                    ClosePosition { pool: settled.0, treasury: settled.1, ..a },
                    Ok(settled.2),
                ),
            },
        },
    }
}

fn close_precheck(accounts: &ClosePosition, market_id: u16) -> (r: Option<PerpsError>)
    ensures
        r == spec_close_precheck(*accounts, market_id),
{
    if accounts.market.market_id != market_id {
        Some(PerpsError::InvalidMarket)
    } else if !accounts.market.oracle.key_eq(&accounts.oracle) {
        Some(PerpsError::InvalidOracle)
    } else if !accounts.position.owner.key_eq(&accounts.user) {
        Some(PerpsError::InvalidOwner)
    } else {
        None
    }
}

/// Closes the position as if the oracle had reported `current_price`: books
/// the profit or loss against the pool, charges the close fee to the
/// treasury, releases the position's collateral and works out the payout.
/// Allowed while the market is paused: existing positions stay manageable.
pub fn close_position_at_price(
    accounts: &mut ClosePosition,
    market_id: u16,
    current_price: i64,
) -> (r: Result<ClosedPosition, PerpsError>)
    ensures
        *final(accounts) == spec_close_position(*old(accounts), market_id, Ok::<i64, PerpsError>(current_price)).0,
        r == spec_close_position(*old(accounts), market_id, Ok::<i64, PerpsError>(current_price)).1,
{
    if let Some(e) = close_precheck(accounts, market_id) {
        return Err(e);
    }
    let position = accounts.position;
    let pnl = match calculate_pnl(position.side, position.position_size, position.entry_price, current_price) {
        Ok(p) => p,
        Err(e) => return Err(e),
    };
    let loss: u64 = if pnl >= 0 {
        0
    } else if pnl == i64::MIN {
        0x8000_0000_0000_0000u64
    } else {
        (-pnl) as u64
    };
    if loss > position.collateral {
        return Err(PerpsError::PositionHealthy);
    }
    let equity = match equity_after_pnl(position.collateral, pnl) {
        Ok(e) => e,
        Err(e) => return Err(e),
    };
    let close_fee = match fee(equity, accounts.market.close_fee_bps) {
        Ok(f) => f,
        Err(e) => return Err(e),
    };
    let payout = equity.saturating_sub(close_fee);
    let locked = match accounts.pool.locked_collateral.checked_sub(position.collateral) {
        Some(v) => v,
        None => return Err(PerpsError::MathUnderflow),
    };
    let liquidity: u64 = if pnl >= 0 {
        match accounts.pool.total_liquidity.checked_sub(pnl as u64) {
            Some(v) => v,
            None => return Err(PerpsError::MathUnderflow),
        }
    } else {
        match accounts.pool.total_liquidity.checked_add(loss) {
            Some(v) => v,
            None => return Err(PerpsError::MathOverflow),
        }
    };
    let collected = if close_fee > 0 {
        match accounts.treasury.collected_fees.checked_add(close_fee) {
            Some(v) => v,
            None => return Err(PerpsError::MathOverflow),
        }
    } else {
        accounts.treasury.collected_fees
    };
    accounts.pool.locked_collateral = locked;
    accounts.pool.total_liquidity = liquidity;
    accounts.treasury.collected_fees = collected;
    Ok(ClosedPosition { pnl, close_fee, payout })
}

/// Closes the caller's position at the oracle price read from `oracle_data`
/// at unix time `now`.
pub fn handler(
    accounts: &mut ClosePosition,
    market_id: u16,
    oracle_data: &[u8],
    now: i64,
) -> (r: Result<ClosedPosition, PerpsError>)
    ensures
        *final(accounts) == spec_close_position(*old(accounts), market_id, spec_close_price(*old(accounts), oracle_data@, now)).0,
        r == spec_close_position(*old(accounts), market_id, spec_close_price(*old(accounts), oracle_data@, now)).1,
{
    if let Some(e) = close_precheck(accounts, market_id) {
        return Err(e);
    }
    let max_staleness = min_of_i64(accounts.market.max_staleness_seconds, accounts.global_state.max_staleness_seconds);
    let max_confidence = min_of_u64(accounts.market.max_confidence_bps, accounts.global_state.max_confidence_bps);
    let price = match load_price_with_checks(oracle_data, now, max_staleness, max_confidence) {
        Ok(p) => p,
        Err(e) => return Err(e),
    };
    close_position_at_price(accounts, market_id, price)
}

} // verus!
