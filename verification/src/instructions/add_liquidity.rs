use vstd::prelude::*;

use crate::error::PerpsError;
use crate::math::fees::lemma_product_fits_u128;
use crate::state::{Address, LiquidityPool, Market};

verus! {

/// What adding liquidity reads and writes.
#[derive(Debug, Clone, Copy, PartialEq, Eq)]
pub struct AddLiquidity {
    pub market: Market,
    pub pool: LiquidityPool,
    /// Address of the vault account the caller supplied.
    pub vault: Address,
    /// Address of the share mint the caller supplied.
    pub lp_mint: Address,
}

/// Shares minted for a deposit of `amount`: one per unit into an empty pool
/// (no shares or no liquidity), otherwise the deposit's proportion of the
/// existing shares, rounded down (exact).
pub open spec fn spec_shares_for_deposit(pool: LiquidityPool, amount: u64) -> int {
    if pool.total_lp_shares == 0 || pool.total_liquidity == 0 {
        amount as int
    } else {
        (amount as int * pool.total_lp_shares as int) / pool.total_liquidity as int
    }
}

/// Adding `amount` of liquidity: the accounts afterwards and the shares to
/// mint, or the error. A refused deposit leaves every account as it was.
pub open spec fn spec_add_liquidity(a: AddLiquidity, market_id: u16, amount: u64) -> (AddLiquidity, Result<u64, PerpsError>) {
    let shares = spec_shares_for_deposit(a.pool, amount);
    if amount == 0 {
        (a, Err(PerpsError::InvalidAmount))
    } else if a.market.market_id != market_id {
        (a, Err(PerpsError::InvalidMarket))
    } else if a.pool.lp_mint@ != a.lp_mint@ {
        (a, Err(PerpsError::InvalidMarket))
    } else if a.pool.vault@ != a.vault@ {
        (a, Err(PerpsError::InvalidMarket))
    } else if a.market.paused {
        (a, Err(PerpsError::MarketPaused))
    } else if shares > u64::MAX {
        (a, Err(PerpsError::MathOverflow))
    } else if shares == 0 {
        (a, Err(PerpsError::InvalidAmount))
    } else if a.pool.total_liquidity + amount > u64::MAX {
        (a, Err(PerpsError::MathOverflow))
    } else if a.pool.total_lp_shares + shares > u64::MAX {
        (a, Err(PerpsError::MathOverflow))
    } else {
        (
            AddLiquidity {
                pool: LiquidityPool {
                    total_liquidity: (a.pool.total_liquidity + amount) as u64,
                    total_lp_shares: (a.pool.total_lp_shares + shares) as u64,
                    ..a.pool
                },
                ..a
            },
            Ok(shares as u64),
        )
    }
}

/// Takes a deposit of `amount` into the market's pool and returns the number
/// of pool shares to mint for it.
pub fn handler(accounts: &mut AddLiquidity, market_id: u16, amount: u64) -> (r: Result<u64, PerpsError>)
    ensures
        *final(accounts) == spec_add_liquidity(*old(accounts), market_id, amount).0,
        r == spec_add_liquidity(*old(accounts), market_id, amount).1,
{
    if amount == 0 {
        return Err(PerpsError::InvalidAmount);
    }
    if accounts.market.market_id != market_id {
        return Err(PerpsError::InvalidMarket);
    }
    if !accounts.pool.lp_mint.key_eq(&accounts.lp_mint) {
        return Err(PerpsError::InvalidMarket);
    }
    if !accounts.pool.vault.key_eq(&accounts.vault) {
        return Err(PerpsError::InvalidMarket);
    }
    if accounts.market.paused {
        return Err(PerpsError::MarketPaused);
    }
    let pool = accounts.pool;
    let shares: u64 = if pool.total_lp_shares == 0 || pool.total_liquidity == 0 {
        amount
    } else {
        proof {
            lemma_product_fits_u128(amount as int, pool.total_lp_shares as int);
        }
        let scaled: u128 = (amount as u128) * (pool.total_lp_shares as u128) / (pool.total_liquidity as u128);
        if scaled > u64::MAX as u128 {
            return Err(PerpsError::MathOverflow);
        }
        scaled as u64
    };
    if shares == 0 {
        return Err(PerpsError::InvalidAmount);
    }
    let liquidity = match pool.total_liquidity.checked_add(amount) {
        Some(v) => v,
        None => return Err(PerpsError::MathOverflow),
    };
    let total_shares = match pool.total_lp_shares.checked_add(shares) {
        Some(v) => v,
        None => return Err(PerpsError::MathOverflow),
    };
    accounts.pool.total_liquidity = liquidity;
    accounts.pool.total_lp_shares = total_shares;
    Ok(shares)
}

} // verus!
