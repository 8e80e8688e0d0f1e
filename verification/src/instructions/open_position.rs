use vstd::prelude::*;

use crate::constants::{BASIS_POINTS_DIVISOR, MIN_COLLATERAL_LAMPORTS};
use crate::error::PerpsError;
use crate::math::fees::lemma_product_fits_u128;
use crate::math::{load_price_with_checks, min_i64, min_of_i64, min_of_u64, min_u64, spec_load_price_with_checks};
use crate::state::{Address, GlobalState, LiquidityPool, Market, Position, Side, Treasury};

verus! {

/// What opening a position reads and writes.
#[derive(Debug, Clone, Copy, PartialEq, Eq)]
pub struct OpenPosition {
    pub global_state: GlobalState,
    pub treasury: Treasury,
    pub user: Address,
    pub market: Market,
    pub pool: LiquidityPool,
    /// Address of the oracle account the caller supplied.
    pub oracle: Address,
    /// Bump of the new position account's address.
    pub position_bump: u8,
}

/// The position just opened, and the open fee the vault forwards to the
/// treasury (nothing is forwarded when it is zero).
#[derive(Debug, Clone, Copy, PartialEq, Eq)]
pub struct OpenedPosition {
    pub position: Position,
    pub open_fee: u64,
}

/// The checks made before the oracle is read.
pub open spec fn spec_open_precheck(
    a: OpenPosition,
    market_id: u16,
    collateral: u64,
    position_size: u64,
    leverage: u8,
) -> Option<PerpsError> {
    if collateral < MIN_COLLATERAL_LAMPORTS {
        Some(PerpsError::InvalidCollateral)
    } else if position_size == 0 {
        Some(PerpsError::InvalidAmount)
    } else if leverage == 0 || leverage > a.market.max_leverage {
        Some(PerpsError::InvalidLeverage)
    } else if a.market.paused {
        Some(PerpsError::MarketPaused)
    } else if a.market.market_id != market_id {
        Some(PerpsError::InvalidMarket)
    } else if a.market.oracle@ != a.oracle@ {
        Some(PerpsError::InvalidOracle)
    } else {
        None
    }
}

/// The oracle read the open uses: the stricter of the market's and the
/// protocol's staleness and confidence limits.
pub open spec fn spec_open_price(a: OpenPosition, oracle_data: Seq<u8>, now: i64) -> Result<i64, PerpsError> {
    spec_load_price_with_checks(
        oracle_data,
        now,
        min_i64(a.market.max_staleness_seconds, a.global_state.max_staleness_seconds),
        min_u64(a.market.max_confidence_bps, a.global_state.max_confidence_bps),
    )
}

/// The open fee: `open_fee_bps` basis points of the collateral, rounded down.
pub open spec fn spec_open_fee(collateral: u64, open_fee_bps: u16) -> int {
    (collateral as int * open_fee_bps as int) / BASIS_POINTS_DIVISOR as int
}

/// The margin a position of `position_size` at `leverage` must post.
pub open spec fn spec_required_margin(position_size: u64, leverage: u8) -> int {
    position_size as int / leverage as int
}

/// Opening the position at `entry_price` and unix time `now`: the new
/// treasury and pool and the opened position, or the error that stops it.
pub open spec fn spec_settle_open(
    a: OpenPosition,
    market_id: u16,
    side: Side,
    collateral: u64,
    position_size: u64,
    leverage: u8,
    entry_price: i64,
    now: i64,
) -> Result<(Treasury, LiquidityPool, OpenedPosition), PerpsError> {
    let fee = spec_open_fee(collateral, a.market.open_fee_bps);
    let net = collateral - fee;
    if fee > 0 && a.treasury.collected_fees + fee > u64::MAX {
        Err(PerpsError::MathOverflow)
    } else if fee > collateral {
        Err(PerpsError::MathUnderflow)
    } else if net < spec_required_margin(position_size, leverage) {
        Err(PerpsError::InvalidCollateral)
    } else if a.pool.locked_collateral + net > u64::MAX {
        Err(PerpsError::MathOverflow)
    } else {
        Ok((
            Treasury {
                collected_fees: if fee > 0 {
                    (a.treasury.collected_fees + fee) as u64
                } else {
                    a.treasury.collected_fees
                },
                ..a.treasury
            },
            LiquidityPool { locked_collateral: (a.pool.locked_collateral + net) as u64, ..a.pool },
            OpenedPosition {
                position: Position {
                    owner: a.user,
                    market_id,
                    side,
                    collateral: net as u64,
                    position_size,
                    leverage,
                    entry_price,
                    realized_pnl: 0,
                    opened_at: now,
                    bump: a.position_bump,
                },
                open_fee: fee as u64,
            },
        ))
    }
}

/// Opening a position given the outcome of the oracle read: the accounts
/// afterwards and the result. A refused open leaves every account as it was.
pub open spec fn spec_open_position(
    a: OpenPosition,
    market_id: u16,
    side: Side,
    collateral: u64,
    position_size: u64,
    leverage: u8,
    price: Result<i64, PerpsError>,
    now: i64,
) -> (OpenPosition, Result<OpenedPosition, PerpsError>) {
    match spec_open_precheck(a, market_id, collateral, position_size, leverage) {
        Some(e) => (a, Err(e)),
        None => match price {
            Err(e) => (a, Err(e)),
            Ok(p) => match spec_settle_open(a, market_id, side, collateral, position_size, leverage, p, now) {
                Err(e) => (a, Err(e)),
                Ok(settled) => (OpenPosition { treasury: settled.0, pool: settled.1, ..a }, Ok(settled.2)),
            },
        },
    }
}

fn open_precheck(
    accounts: &OpenPosition,
    market_id: u16,
    collateral: u64,
    position_size: u64,
    leverage: u8,
) -> (r: Option<PerpsError>)
    ensures
        r == spec_open_precheck(*accounts, market_id, collateral, position_size, leverage),
{
    if collateral < MIN_COLLATERAL_LAMPORTS {
        Some(PerpsError::InvalidCollateral)
    } else if position_size == 0 {
        Some(PerpsError::InvalidAmount)
    } else if leverage == 0 || leverage > accounts.market.max_leverage {
        Some(PerpsError::InvalidLeverage)
    } else if accounts.market.paused {
        Some(PerpsError::MarketPaused)
    } else if accounts.market.market_id != market_id {
        Some(PerpsError::InvalidMarket)
    } else if !accounts.market.oracle.key_eq(&accounts.oracle) {
        Some(PerpsError::InvalidOracle)
    } else {
        None
    }
}

/// Opens a position as if the oracle had reported `entry_price`, at unix time
/// `now`: charges the open fee, checks the remaining collateral covers the
/// required margin `position_size / leverage`, and locks it in the pool.
pub fn open_position_at_price(
    accounts: &mut OpenPosition,
    market_id: u16,
    side: Side,
    collateral: u64,
    position_size: u64,
    leverage: u8,
    entry_price: i64,
    now: i64,
) -> (r: Result<OpenedPosition, PerpsError>)
    ensures
        *final(accounts) == spec_open_position(
            *old(accounts), market_id, side, collateral, position_size, leverage, Ok::<i64, PerpsError>(entry_price), now,
        ).0,
        r == spec_open_position(
            *old(accounts), market_id, side, collateral, position_size, leverage, Ok::<i64, PerpsError>(entry_price), now,
        ).1,
{
    if let Some(e) = open_precheck(accounts, market_id, collateral, position_size, leverage) {
        return Err(e);
    }
    proof {
        lemma_product_fits_u128(collateral as int, accounts.market.open_fee_bps as int);
    }
    let open_fee: u128 = (collateral as u128) * (accounts.market.open_fee_bps as u128)
        / (BASIS_POINTS_DIVISOR as u128);
    proof {
        assert(open_fee <= collateral as int * 65_535) by (nonlinear_arith)
            requires
                open_fee as int == (collateral as int * accounts.market.open_fee_bps as int) / 10_000int,
                0 <= accounts.market.open_fee_bps <= 65_535,
                0 <= collateral <= u64::MAX,
        ;
    }
    if open_fee > 0 && (accounts.treasury.collected_fees as u128) + open_fee > u64::MAX as u128 {
        return Err(PerpsError::MathOverflow);
    }
    if open_fee > collateral as u128 {
        return Err(PerpsError::MathUnderflow);
    }
    let fee: u64 = open_fee as u64;
    let collected: u64 = accounts.treasury.collected_fees + fee;
    let net_collateral: u64 = collateral - fee;
    let required_margin: u64 = position_size / (leverage as u64);
    if net_collateral < required_margin {
        return Err(PerpsError::InvalidCollateral);
    }
    let locked = match accounts.pool.locked_collateral.checked_add(net_collateral) {
        Some(v) => v,
        None => return Err(PerpsError::MathOverflow),
    };
    accounts.treasury.collected_fees = collected;
    accounts.pool.locked_collateral = locked;
    let position = Position {
        owner: accounts.user,
        market_id,
        side,
        collateral: net_collateral,
        position_size,
        leverage,
        entry_price,
        realized_pnl: 0,
        opened_at: now,
        bump: accounts.position_bump,
    };
    Ok(OpenedPosition { position, open_fee: fee })
}

/// Opens a position for the caller at the oracle price read from
/// `oracle_data` at unix time `now`.
pub fn handler(
    accounts: &mut OpenPosition,
    market_id: u16,
    side: Side,
    collateral: u64,
    position_size: u64,
    leverage: u8,
    oracle_data: &[u8],
    now: i64,
) -> (r: Result<OpenedPosition, PerpsError>)
    ensures
        *final(accounts) == spec_open_position(
            *old(accounts), market_id, side, collateral, position_size, leverage,
            spec_open_price(*old(accounts), oracle_data@, now), now,
        ).0,
        r == spec_open_position(
            *old(accounts), market_id, side, collateral, position_size, leverage,
            spec_open_price(*old(accounts), oracle_data@, now), now,
        ).1,
{
    if let Some(e) = open_precheck(accounts, market_id, collateral, position_size, leverage) {
        return Err(e);
    }
    let max_staleness = min_of_i64(accounts.market.max_staleness_seconds, accounts.global_state.max_staleness_seconds);
    let max_confidence = min_of_u64(accounts.market.max_confidence_bps, accounts.global_state.max_confidence_bps);
    let price = match load_price_with_checks(oracle_data, now, max_staleness, max_confidence) {
        Ok(p) => p,
        Err(e) => return Err(e),
    };
    open_position_at_price(accounts, market_id, side, collateral, position_size, leverage, price, now)
}

} // verus!
