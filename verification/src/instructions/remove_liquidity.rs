use vstd::prelude::*;

use crate::error::PerpsError;
use crate::math::fees::lemma_product_fits_u128;
use crate::state::{Address, LiquidityPool, Market};

verus! {

/// What removing liquidity reads and writes.
#[derive(Debug, Clone, Copy, PartialEq, Eq)]
pub struct RemoveLiquidity {
    pub user: Address,
    pub market: Market,
    pub pool: LiquidityPool,
    /// Address of the vault account the caller supplied.
    pub vault: Address,
    /// Lamports the vault account holds.
    pub vault_lamports: u64,
    /// Address of the share mint the caller supplied.
    pub lp_mint: Address,
    /// Owner of the share token account the shares are burnt from.
    pub user_lp_ata_owner: Address,
}

/// Liquidity paid out for redeeming `shares`: their proportion of the pool's
/// liquidity, rounded down.
pub open spec fn spec_withdraw_for_shares(pool: LiquidityPool, shares: u64) -> int {
    (shares as int * pool.total_liquidity as int) / pool.total_lp_shares as int
}

/// Redeeming `shares`: the accounts afterwards and the liquidity to pay out,
/// or the error. A refused withdrawal leaves every account as it was. The
/// payout must be covered by the vault's lamports beyond the locked collateral.
pub open spec fn spec_remove_liquidity(a: RemoveLiquidity, market_id: u16, shares: u64) -> (RemoveLiquidity, Result<u64, PerpsError>) {
    let withdraw = spec_withdraw_for_shares(a.pool, shares);
    if shares == 0 {
        (a, Err(PerpsError::InvalidAmount))
    } else if a.market.paused {
        (a, Err(PerpsError::MarketPaused))
    } else if a.market.market_id != market_id {
        (a, Err(PerpsError::InvalidMarket))
    } else if a.pool.lp_mint@ != a.lp_mint@ {
        (a, Err(PerpsError::InvalidMarket))
    } else if a.pool.vault@ != a.vault@ {
        (a, Err(PerpsError::InvalidMarket))
    } else if a.user_lp_ata_owner@ != a.user@ {
        (a, Err(PerpsError::InvalidOwner))
    } else if a.pool.total_lp_shares < shares {
        (a, Err(PerpsError::InsufficientShares))
    } else if a.vault_lamports < a.pool.locked_collateral {
        (a, Err(PerpsError::InsufficientLiquidity))
    } else if withdraw > a.vault_lamports - a.pool.locked_collateral {
        (a, Err(PerpsError::InsufficientLiquidity))
    } else {
        (
            RemoveLiquidity {
                pool: LiquidityPool {
                    total_lp_shares: (a.pool.total_lp_shares - shares) as u64,
                    total_liquidity: (a.pool.total_liquidity - withdraw) as u64,
                    ..a.pool
                },
                ..a
            },
            Ok(withdraw as u64),
        )
    }
}

/// Burns `shares` of the caller's pool shares and returns the liquidity the
/// vault pays out for them.
pub fn handler(accounts: &mut RemoveLiquidity, market_id: u16, shares: u64) -> (r: Result<u64, PerpsError>)
    ensures
        *final(accounts) == spec_remove_liquidity(*old(accounts), market_id, shares).0,
        r == spec_remove_liquidity(*old(accounts), market_id, shares).1,
{
    if shares == 0 {
        return Err(PerpsError::InvalidAmount);
    }
    if accounts.market.paused {
        return Err(PerpsError::MarketPaused);
    }
    if accounts.market.market_id != market_id {
        return Err(PerpsError::InvalidMarket);
    }
    if !accounts.pool.lp_mint.key_eq(&accounts.lp_mint) {
        return Err(PerpsError::InvalidMarket);
    }
    if !accounts.pool.vault.key_eq(&accounts.vault) {
        return Err(PerpsError::InvalidMarket);
    }
    if !accounts.user_lp_ata_owner.key_eq(&accounts.user) {
        return Err(PerpsError::InvalidOwner);
    }
    let pool = accounts.pool;
    if pool.total_lp_shares < shares {
        return Err(PerpsError::InsufficientShares);
    }
    proof {
        lemma_product_fits_u128(shares as int, pool.total_liquidity as int);
    }
    let scaled: u128 = (shares as u128) * (pool.total_liquidity as u128) / (pool.total_lp_shares as u128);
    proof {
        let s = shares as int;
        let l = pool.total_liquidity as int;
        let t = pool.total_lp_shares as int;
        assert((s * l) / t <= l) by (nonlinear_arith)
            requires
                0 < s <= t,
                0 <= l,
        ;
    }
    let withdraw_amount: u64 = scaled as u64;
    let free_liquidity = accounts.vault_lamports;
    if free_liquidity < pool.locked_collateral {
        return Err(PerpsError::InsufficientLiquidity);
    }
    if withdraw_amount > free_liquidity - pool.locked_collateral {
        return Err(PerpsError::InsufficientLiquidity);
    }
    accounts.pool.total_lp_shares = pool.total_lp_shares - shares;
    accounts.pool.total_liquidity = pool.total_liquidity - withdraw_amount;
    Ok(withdraw_amount)
}

} // verus!
