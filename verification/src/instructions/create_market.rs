use vstd::prelude::*;

use crate::error::PerpsError;
use crate::state::{Address, LiquidityPool, Market};

verus! {

/// What creating a market reads: the addresses and bumps of the accounts it
/// creates.
#[derive(Debug, Clone, Copy, PartialEq, Eq)]
pub struct CreateMarket {
    /// The signer creating the market, who pays for the new accounts. That it
    /// is the protocol's admin is checked by the account constraints
    /// (`has_one = admin` on the global state) before the handler runs, so the
    /// handler does not read it.
    pub admin: Address,
    pub pool: Address,
    pub lp_mint: Address,
    pub vault: Address,
    pub market_bump: u8,
    pub pool_bump: u8,
}

/// The new market, running, with the given parameters and its pool, empty.
pub open spec fn spec_new_market(
    accounts: CreateMarket,
    market_id: u16,
    oracle: Address,
    max_leverage: u8,
    maintenance_margin_bps: u16,
    open_fee_bps: u16,
    close_fee_bps: u16,
    liquidation_fee_bps: u16,
    max_staleness_seconds: i64,
    max_confidence_bps: u64,
) -> (Market, LiquidityPool) {
    (
        Market {
            market_id,
            oracle,
            pool: accounts.pool,
            max_leverage,
            maintenance_margin_bps,
            open_fee_bps,
            close_fee_bps,
            liquidation_fee_bps,
            max_staleness_seconds,
            max_confidence_bps,
            paused: false,
            bump: accounts.market_bump,
        },
        LiquidityPool {
            market_id,
            vault: accounts.vault,
            lp_mint: accounts.lp_mint,
            total_liquidity: 0,
            total_lp_shares: 0,
            locked_collateral: 0,
            bump: accounts.pool_bump,
        },
    )
}

/// Creates a market and its empty pool; a market must allow some leverage.
pub fn handler(
    accounts: &CreateMarket,
    market_id: u16,
    oracle: Address,
    max_leverage: u8,
    maintenance_margin_bps: u16,
    open_fee_bps: u16,
    close_fee_bps: u16,
    liquidation_fee_bps: u16,
    max_staleness_seconds: i64,
    max_confidence_bps: u64,
) -> (r: Result<(Market, LiquidityPool), PerpsError>)
    ensures
        max_leverage == 0 ==> r == Err::<(Market, LiquidityPool), PerpsError>(PerpsError::InvalidLeverage),
        max_leverage > 0 ==> r == Ok::<(Market, LiquidityPool), PerpsError>(
            spec_new_market(
                *accounts, market_id, oracle, max_leverage, maintenance_margin_bps, open_fee_bps,
                close_fee_bps, liquidation_fee_bps, max_staleness_seconds, max_confidence_bps,
            ),
        ),
{
    if max_leverage == 0 {
        return Err(PerpsError::InvalidLeverage);
    }
    let market = Market {
        market_id,
        oracle,
        pool: accounts.pool,
        max_leverage,
        maintenance_margin_bps,
        open_fee_bps,
        close_fee_bps,
        liquidation_fee_bps,
        max_staleness_seconds,
        max_confidence_bps,
        paused: false,
        bump: accounts.market_bump,
    };
    let pool = LiquidityPool {
        market_id,
        vault: accounts.vault,
        lp_mint: accounts.lp_mint,
        total_liquidity: 0,
        total_lp_shares: 0,
        locked_collateral: 0,
        bump: accounts.pool_bump,
    };
    Ok((market, pool))
}

} // verus!
