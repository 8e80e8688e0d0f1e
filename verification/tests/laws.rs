use perps::instructions::add_liquidity::{self, AddLiquidity};
use perps::instructions::close_position::{close_position_at_price, ClosePosition};
use perps::instructions::open_position::{open_position_at_price, OpenPosition};
use perps::instructions::remove_liquidity::{self, RemoveLiquidity};
use perps::math::fees::fee;
use perps::math::liquidation::{maintenance_requirement, margin_ratio_bps};
use perps::math::pnl::calculate_pnl;
use perps::state::{Address, GlobalState, LiquidityPool, Market, Side, Treasury};

fn addr(n: u8) -> Address {
    Address { bytes: [n; 32] }
}

fn market() -> Market {
    Market {
        market_id: 1,
        oracle: addr(3),
        pool: addr(4),
        max_leverage: 20,
        maintenance_margin_bps: 500,
        open_fee_bps: 30,
        close_fee_bps: 40,
        liquidation_fee_bps: 100,
        max_staleness_seconds: 60,
        max_confidence_bps: 100,
        paused: false,
        bump: 0,
    }
}

fn pool(total_liquidity: u64, total_lp_shares: u64, locked_collateral: u64) -> LiquidityPool {
    LiquidityPool { market_id: 1, vault: addr(5), lp_mint: addr(6), total_liquidity, total_lp_shares, locked_collateral, bump: 0 }
}

fn global() -> GlobalState {
    GlobalState { admin: addr(1), treasury: addr(7), max_staleness_seconds: 60, max_confidence_bps: 100, bump: 0 }
}

fn treasury() -> Treasury {
    Treasury { authority: addr(1), collected_fees: 0, bump: 0 }
}

#[test]
fn fee_of_at_most_full_rate_stays_within_amount() {
    for (amount, bps) in [(0u64, 0u16), (1, 10_000), (12_345, 9_999), (u64::MAX, 10_000), (u64::MAX, 1)] {
        assert!(fee(amount, bps).unwrap() <= amount);
    }
}

#[test]
fn long_and_short_pnl_are_opposite() {
    for (size, entry, current) in [(50u64, 100i64, 120i64), (3, 100, 99), (1_000, 7, 3), (0, 5, 9)] {
        let long = calculate_pnl(Side::Long, size, entry, current).unwrap();
        let short = calculate_pnl(Side::Short, size, entry, current).unwrap();
        assert_eq!(long, -short);
    }
}

#[test]
fn equity_below_requirement_means_low_ratio() {
    let requirement = maintenance_requirement(10_000, 500).unwrap();
    assert_eq!(requirement, 500);
    assert!(margin_ratio_bps(requirement - 1, 10_000).unwrap() < 500);
}

#[test]
fn redeeming_a_deposit_returns_at_most_the_deposit() {
    let mut a = AddLiquidity { market: market(), pool: pool(3_001, 1_000, 0), vault: addr(5), lp_mint: addr(6) };
    let shares = add_liquidity::handler(&mut a, 1, 700).unwrap();
    let before_shares = 1_000u64;
    let mut r = RemoveLiquidity {
        user: addr(2),
        market: market(),
        pool: a.pool,
        vault: addr(5),
        vault_lamports: u64::MAX,
        lp_mint: addr(6),
        user_lp_ata_owner: addr(2),
    };
    let paid = remove_liquidity::handler(&mut r, 1, shares).unwrap();
    assert!(paid <= 700);
    // Existing shares were not diluted by the round trip.
    assert!(r.pool.total_liquidity as u128 * before_shares as u128 >= 3_001u128 * r.pool.total_lp_shares as u128);
}

#[test]
fn open_then_close_releases_the_collateral() {
    let mut o = OpenPosition { global_state: global(), treasury: treasury(), user: addr(2), market: market(), pool: pool(50_000_000, 50_000_000, 123), oracle: addr(3), position_bump: 0 };
    let opened = open_position_at_price(&mut o, 1, Side::Long, 5_000_000, 40_000_000, 10, 200, 0).unwrap();
    assert_eq!(o.pool.locked_collateral, 123 + opened.position.collateral);
    let mut c = ClosePosition { global_state: global(), user: addr(2), market: market(), pool: o.pool, position: opened.position, oracle: addr(3), treasury: o.treasury };
    let closed = close_position_at_price(&mut c, 1, 190).unwrap();
    assert_eq!(c.pool.locked_collateral, 123);
    // The settlement adds up: payout plus fee is collateral plus PnL.
    assert_eq!(closed.payout as i128 + closed.close_fee as i128, opened.position.collateral as i128 + closed.pnl as i128);
    assert_eq!(c.pool.total_liquidity as i128, 50_000_000i128 - closed.pnl as i128);
    // The books drop by exactly what the vault pays out.
    let books_before = 50_000_000i128 + 123 + opened.position.collateral as i128;
    let books_after = c.pool.total_liquidity as i128 + c.pool.locked_collateral as i128;
    assert_eq!(books_before - books_after, closed.payout as i128 + closed.close_fee as i128);
}

#[test]
fn paused_market_opens_nothing_but_closes() {
    let mut paused_market = market();
    paused_market.paused = true;
    let mut o = OpenPosition { global_state: global(), treasury: treasury(), user: addr(2), market: paused_market, pool: pool(50_000_000, 50_000_000, 0), oracle: addr(3), position_bump: 0 };
    let before = o;
    assert!(open_position_at_price(&mut o, 1, Side::Long, 5_000_000, 1_000, 10, 200, 0).is_err());
    assert_eq!(o, before);
    let mut o2 = OpenPosition { market: market(), ..before };
    let opened = open_position_at_price(&mut o2, 1, Side::Short, 5_000_000, 1_000, 10, 200, 0).unwrap();
    let mut c = ClosePosition { global_state: global(), user: addr(2), market: paused_market, pool: o2.pool, position: opened.position, oracle: addr(3), treasury: o2.treasury };
    let mut c_running = ClosePosition { market: market(), ..c };
    assert_eq!(close_position_at_price(&mut c, 1, 210), close_position_at_price(&mut c_running, 1, 210));
    assert_eq!(c.pool, c_running.pool);
}

#[test]
fn withdrawal_never_dilutes_remaining_shares() {
    let before = pool(1_001, 7, 0);
    let mut r = RemoveLiquidity {
        user: addr(2),
        market: market(),
        pool: before,
        vault: addr(5),
        vault_lamports: 1_001,
        lp_mint: addr(6),
        user_lp_ata_owner: addr(2),
    };
    let paid = remove_liquidity::handler(&mut r, 1, 3).unwrap();
    // 3 * 1001 / 7 = 429 (rounded down from 429.0).
    assert_eq!(paid, 429);
    assert!(r.pool.total_liquidity as u128 * before.total_lp_shares as u128 >= before.total_liquidity as u128 * r.pool.total_lp_shares as u128);
}

#[test]
fn opened_position_is_within_limits() {
    let mut o = OpenPosition { global_state: global(), treasury: treasury(), user: addr(2), market: market(), pool: pool(0, 0, 0), oracle: addr(3), position_bump: 0 };
    let opened = open_position_at_price(&mut o, 1, Side::Long, 3_000_000, 59_000_000, 20, 42, 7).unwrap();
    assert!(opened.position.leverage >= 1 && opened.position.leverage <= 20);
    assert!(opened.position.collateral >= 59_000_000 / 20);
    assert!(opened.position.collateral <= 3_000_000);
    assert_eq!(opened.position.entry_price, 42);
    // The same position at leverage 21 is over the market's limit.
    let mut o2 = OpenPosition { global_state: global(), treasury: treasury(), user: addr(2), market: market(), pool: pool(0, 0, 0), oracle: addr(3), position_bump: 0 };
    assert!(open_position_at_price(&mut o2, 1, Side::Long, 3_000_000, 59_000_000, 21, 42, 7).is_err());
}
