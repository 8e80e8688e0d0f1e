use perps::constants::{DEFAULT_MAX_CONFIDENCE_BPS, DEFAULT_MAX_STALENESS_SECONDS, MIN_COLLATERAL_LAMPORTS};
use perps::error::PerpsError;
use perps::instructions::add_liquidity::{self, AddLiquidity};
use perps::instructions::close_position::{self, close_position_at_price, ClosePosition, ClosedPosition};
use perps::instructions::create_market::{self, CreateMarket};
use perps::instructions::initialize::{self, Initialize};
use perps::instructions::open_position::{self, open_position_at_price, OpenPosition};
use perps::instructions::pause_market::{self, PauseMarket};
use perps::instructions::remove_liquidity::{self, RemoveLiquidity};
use perps::instructions::update_market::{self, UpdateMarket};
use perps::state::{Address, GlobalState, LiquidityPool, Market, Position, Side, Treasury};

use pyth_sdk_solana::state::{AccountType, PriceStatus, SolanaPriceAccount, MAGIC, VERSION_2};

fn addr(n: u8) -> Address {
    Address { bytes: [n; 32] }
}

const ADMIN: u8 = 1;
const USER: u8 = 2;
const ORACLE: u8 = 3;
const POOL: u8 = 4;
const VAULT: u8 = 5;
const MINT: u8 = 6;
const TREASURY: u8 = 7;

fn global() -> GlobalState {
    GlobalState { admin: addr(ADMIN), treasury: addr(TREASURY), max_staleness_seconds: 60, max_confidence_bps: 100, bump: 1 }
}

fn treasury() -> Treasury {
    Treasury { authority: addr(ADMIN), collected_fees: 0, bump: 2 }
}

fn market() -> Market {
    Market {
        market_id: 9,
        oracle: addr(ORACLE),
        pool: addr(POOL),
        max_leverage: 10,
        maintenance_margin_bps: 500,
        open_fee_bps: 10,
        close_fee_bps: 20,
        liquidation_fee_bps: 100,
        max_staleness_seconds: 30,
        max_confidence_bps: 200,
        paused: false,
        bump: 3,
    }
}

fn pool(total_liquidity: u64, total_lp_shares: u64, locked_collateral: u64) -> LiquidityPool {
    LiquidityPool { market_id: 9, vault: addr(VAULT), lp_mint: addr(MINT), total_liquidity, total_lp_shares, locked_collateral, bump: 4 }
}

fn add_accounts(p: LiquidityPool) -> AddLiquidity {
    AddLiquidity { market: market(), pool: p, vault: addr(VAULT), lp_mint: addr(MINT) }
}

fn remove_accounts(p: LiquidityPool, vault_lamports: u64) -> RemoveLiquidity {
    RemoveLiquidity {
        user: addr(USER),
        market: market(),
        pool: p,
        vault: addr(VAULT),
        vault_lamports,
        lp_mint: addr(MINT),
        user_lp_ata_owner: addr(USER),
    }
}

fn open_accounts(p: LiquidityPool) -> OpenPosition {
    OpenPosition { global_state: global(), treasury: treasury(), user: addr(USER), market: market(), pool: p, oracle: addr(ORACLE), position_bump: 8 }
}

fn position(side: Side, collateral: u64, position_size: u64, entry_price: i64) -> Position {
    Position {
        owner: addr(USER),
        market_id: 9,
        side,
        collateral,
        position_size,
        leverage: 5,
        entry_price,
        realized_pnl: 0,
        opened_at: 500,
        bump: 8,
    }
}

fn close_accounts(p: LiquidityPool, pos: Position) -> ClosePosition {
    ClosePosition { global_state: global(), user: addr(USER), market: market(), pool: p, position: pos, oracle: addr(ORACLE), treasury: treasury() }
}

fn pyth_bytes(agg_price: i64, agg_conf: u64, timestamp: i64) -> Vec<u8> {
    let mut account = SolanaPriceAccount::default();
    account.magic = MAGIC;
    account.ver = VERSION_2;
    account.atype = AccountType::Price as u32;
    account.expo = -8;
    account.timestamp = timestamp;
    account.agg.price = agg_price;
    account.agg.conf = agg_conf;
    account.agg.status = PriceStatus::Trading;
    bytemuck::bytes_of(&account).to_vec()
}

#[test]
fn initialize_sets_defaults() {
    let accounts = Initialize { admin: addr(ADMIN), treasury: addr(TREASURY), global_state_bump: 11, treasury_bump: 12 };
    let (g, t) = initialize::handler(&accounts);
    assert_eq!(g.admin, addr(ADMIN));
    assert_eq!(g.treasury, addr(TREASURY));
    assert_eq!(g.max_staleness_seconds, DEFAULT_MAX_STALENESS_SECONDS);
    assert_eq!(g.max_confidence_bps, DEFAULT_MAX_CONFIDENCE_BPS);
    assert_eq!(g.bump, 11);
    assert_eq!(t, Treasury { authority: addr(ADMIN), collected_fees: 0, bump: 12 });
}

#[test]
fn create_market_builds_market_and_empty_pool() {
    let accounts = CreateMarket { admin: addr(ADMIN), pool: addr(POOL), lp_mint: addr(MINT), vault: addr(VAULT), market_bump: 3, pool_bump: 4 };
    let (m, p) = create_market::handler(&accounts, 9, addr(ORACLE), 10, 500, 10, 20, 100, 30, 200).unwrap();
    assert_eq!(m, market());
    assert_eq!(p, pool(0, 0, 0));
    assert_eq!(
        create_market::handler(&accounts, 9, addr(ORACLE), 0, 500, 10, 20, 100, 30, 200),
        Err(PerpsError::InvalidLeverage)
    );
}

#[test]
fn first_deposit_mints_one_share_per_unit() {
    let mut a = add_accounts(pool(0, 0, 0));
    assert_eq!(add_liquidity::handler(&mut a, 9, 1_000), Ok(1_000));
    assert_eq!(a.pool, pool(1_000, 1_000, 0));
}

#[test]
fn later_deposit_mints_proportional_shares() {
    let mut a = add_accounts(pool(2_000, 1_000, 0));
    assert_eq!(add_liquidity::handler(&mut a, 9, 500), Ok(250));
    assert_eq!(a.pool, pool(2_500, 1_250, 0));
}

#[test]
fn deposit_refusals() {
    let mut a = add_accounts(pool(2_000, 1_000, 0));
    assert_eq!(add_liquidity::handler(&mut a, 9, 0), Err(PerpsError::InvalidAmount));
    assert_eq!(add_liquidity::handler(&mut a, 8, 10), Err(PerpsError::InvalidMarket));
    // Too small to earn a share.
    assert_eq!(add_liquidity::handler(&mut a, 9, 1), Err(PerpsError::InvalidAmount));
    assert_eq!(a.pool, pool(2_000, 1_000, 0));
    let mut wrong_mint = add_accounts(pool(2_000, 1_000, 0));
    wrong_mint.lp_mint = addr(99);
    assert_eq!(add_liquidity::handler(&mut wrong_mint, 9, 10), Err(PerpsError::InvalidMarket));
    let mut wrong_vault = add_accounts(pool(2_000, 1_000, 0));
    wrong_vault.vault = addr(99);
    assert_eq!(add_liquidity::handler(&mut wrong_vault, 9, 10), Err(PerpsError::InvalidMarket));
    let mut paused = add_accounts(pool(2_000, 1_000, 0));
    paused.market.paused = true;
    assert_eq!(add_liquidity::handler(&mut paused, 9, 10), Err(PerpsError::MarketPaused));
    let mut full = add_accounts(pool(u64::MAX, 1_000, 0));
    assert_eq!(add_liquidity::handler(&mut full, 9, u64::MAX), Err(PerpsError::MathOverflow));
    assert_eq!(full.pool, pool(u64::MAX, 1_000, 0));
}

#[test]
fn deposit_minting_more_than_u64_shares_overflows() {
    // 2^32 * 2^40 / 1 shares do not fit in 64 bits.
    let mut a = add_accounts(pool(1, 1u64 << 40, 0));
    assert_eq!(add_liquidity::handler(&mut a, 9, 1u64 << 32), Err(PerpsError::MathOverflow));
    assert_eq!(a.pool, pool(1, 1u64 << 40, 0));
    // u64::MAX shares fit, but not on top of the shares already issued.
    let mut b = add_accounts(pool(1, u64::MAX, 0));
    assert_eq!(add_liquidity::handler(&mut b, 9, 1), Err(PerpsError::MathOverflow));
    // 2^31 * 2^32 / 1 = 2^63 shares fit.
    let mut c = add_accounts(pool(1, 1u64 << 32, 0));
    assert_eq!(add_liquidity::handler(&mut c, 9, 1u64 << 31), Ok(1u64 << 63));
    assert_eq!(c.pool, pool(1 + (1u64 << 31), (1u64 << 32) + (1u64 << 63), 0));
}

#[test]
fn withdrawal_pays_proportional_liquidity() {
    let mut r = remove_accounts(pool(3_000, 1_000, 500), 3_500);
    assert_eq!(remove_liquidity::handler(&mut r, 9, 400), Ok(1_200));
    assert_eq!(r.pool, pool(1_800, 600, 500));
}

#[test]
fn withdrawal_refusals() {
    let mut r = remove_accounts(pool(3_000, 1_000, 500), 3_500);
    assert_eq!(remove_liquidity::handler(&mut r, 9, 0), Err(PerpsError::InvalidAmount));
    assert_eq!(remove_liquidity::handler(&mut r, 9, 1_001), Err(PerpsError::InsufficientShares));
    assert_eq!(remove_liquidity::handler(&mut r, 7, 1), Err(PerpsError::InvalidMarket));
    let mut locked = remove_accounts(pool(3_000, 1_000, 500), 400);
    assert_eq!(remove_liquidity::handler(&mut locked, 9, 1), Err(PerpsError::InsufficientLiquidity));
    let mut short = remove_accounts(pool(3_000, 1_000, 500), 1_000);
    // 200 shares are worth 600, but only 500 lamports are free.
    assert_eq!(remove_liquidity::handler(&mut short, 9, 200), Err(PerpsError::InsufficientLiquidity));
    let mut other_owner = remove_accounts(pool(3_000, 1_000, 500), 3_500);
    other_owner.user_lp_ata_owner = addr(42);
    assert_eq!(remove_liquidity::handler(&mut other_owner, 9, 10), Err(PerpsError::InvalidOwner));
    let mut paused = remove_accounts(pool(3_000, 1_000, 500), 3_500);
    paused.market.paused = true;
    assert_eq!(remove_liquidity::handler(&mut paused, 9, 10), Err(PerpsError::MarketPaused));
    assert_eq!(r.pool, pool(3_000, 1_000, 500));
}

#[test]
fn open_position_charges_fee_and_locks_collateral() {
    let mut a = open_accounts(pool(10_000_000, 10_000_000, 0));
    let opened = open_position_at_price(&mut a, 9, Side::Long, 2_000_000, 9_000_000, 5, 150, 777).unwrap();
    // Open fee: 2_000_000 * 10 / 10_000 = 2_000.
    assert_eq!(opened.open_fee, 2_000);
    assert_eq!(opened.position.collateral, 1_998_000);
    assert_eq!(opened.position.entry_price, 150);
    assert_eq!(opened.position.opened_at, 777);
    assert_eq!(opened.position.owner, addr(USER));
    assert_eq!(opened.position.bump, 8);
    assert_eq!(a.treasury.collected_fees, 2_000);
    assert_eq!(a.pool.locked_collateral, 1_998_000);
    assert_eq!(a.pool.total_liquidity, 10_000_000);
}

#[test]
fn open_position_refusals() {
    let p = pool(10_000_000, 10_000_000, 0);
    let mut a = open_accounts(p);
    assert_eq!(
        open_position_at_price(&mut a, 9, Side::Long, MIN_COLLATERAL_LAMPORTS - 1, 10, 5, 150, 0),
        Err(PerpsError::InvalidCollateral)
    );
    assert_eq!(open_position_at_price(&mut a, 9, Side::Long, 2_000_000, 0, 5, 150, 0), Err(PerpsError::InvalidAmount));
    assert_eq!(open_position_at_price(&mut a, 9, Side::Long, 2_000_000, 10, 0, 150, 0), Err(PerpsError::InvalidLeverage));
    assert_eq!(open_position_at_price(&mut a, 9, Side::Long, 2_000_000, 10, 11, 150, 0), Err(PerpsError::InvalidLeverage));
    assert_eq!(open_position_at_price(&mut a, 8, Side::Long, 2_000_000, 10, 5, 150, 0), Err(PerpsError::InvalidMarket));
    // Margin 20_000_000 / 5 = 4_000_000 exceeds the collateral left.
    assert_eq!(
        open_position_at_price(&mut a, 9, Side::Long, 2_000_000, 20_000_000, 5, 150, 0),
        Err(PerpsError::InvalidCollateral)
    );
    assert_eq!(a, open_accounts(p));
    let mut paused = open_accounts(p);
    paused.market.paused = true;
    assert_eq!(open_position_at_price(&mut paused, 9, Side::Long, 2_000_000, 10, 5, 150, 0), Err(PerpsError::MarketPaused));
    let mut wrong_oracle = open_accounts(p);
    wrong_oracle.oracle = addr(77);
    assert_eq!(open_position_at_price(&mut wrong_oracle, 9, Side::Long, 2_000_000, 10, 5, 150, 0), Err(PerpsError::InvalidOracle));
    let mut greedy = open_accounts(p);
    greedy.market.open_fee_bps = 20_000;
    assert_eq!(open_position_at_price(&mut greedy, 9, Side::Long, 2_000_000, 10, 5, 150, 0), Err(PerpsError::MathUnderflow));
    let mut full_treasury = open_accounts(p);
    full_treasury.treasury.collected_fees = u64::MAX;
    assert_eq!(open_position_at_price(&mut full_treasury, 9, Side::Long, 2_000_000, 10, 5, 150, 0), Err(PerpsError::MathOverflow));
    assert_eq!(full_treasury.treasury.collected_fees, u64::MAX);
}

#[test]
fn open_fee_above_collateral_underflows() {
    // A fee of 4_000_000 on a collateral of 2_000_000.
    let mut greedy = open_accounts(pool(10_000_000, 10_000_000, 0));
    greedy.market.open_fee_bps = 20_000;
    assert_eq!(open_position_at_price(&mut greedy, 9, Side::Long, 2_000_000, 10, 5, 150, 0), Err(PerpsError::MathUnderflow));
    assert_eq!(greedy.treasury.collected_fees, 0);
    // The treasury's total is checked first: when it cannot take the fee,
    // that is the error, even though the fee also exceeds the collateral.
    let mut both = open_accounts(pool(10_000_000, 10_000_000, 0));
    both.market.open_fee_bps = 20_000;
    both.treasury.collected_fees = u64::MAX - 1;
    assert_eq!(open_position_at_price(&mut both, 9, Side::Long, 2_000_000, 10, 5, 150, 0), Err(PerpsError::MathOverflow));
    // The exact fee 2 * (2^64 - 1) fits in no treasury total.
    let mut huge = open_accounts(pool(10_000_000, 10_000_000, 0));
    huge.market.open_fee_bps = 20_000;
    assert_eq!(open_position_at_price(&mut huge, 9, Side::Long, u64::MAX, 10, 5, 150, 0), Err(PerpsError::MathOverflow));
    assert_eq!(huge.treasury.collected_fees, 0);
    // A fee of exactly 100% leaves no collateral, which no margin covers.
    let mut whole = open_accounts(pool(10_000_000, 10_000_000, 0));
    whole.market.open_fee_bps = 10_000;
    assert_eq!(open_position_at_price(&mut whole, 9, Side::Long, 2_000_000, 10, 5, 150, 0), Err(PerpsError::InvalidCollateral));
}

#[test]
fn close_with_loss_equal_to_collateral_pays_nothing() {
    // Short 1_000_000 of size 5_000_000 from 100 to 120: a loss of exactly
    // the collateral, which the pool keeps.
    let mut c = close_accounts(pool(10_000_000, 10_000_000, 1_000_000), position(Side::Short, 1_000_000, 5_000_000, 100));
    let closed = close_position_at_price(&mut c, 9, 120).unwrap();
    assert_eq!(closed, ClosedPosition { pnl: -1_000_000, close_fee: 0, payout: 0 });
    assert_eq!(c.pool.total_liquidity, 11_000_000);
    assert_eq!(c.pool.locked_collateral, 0);
}

#[test]
fn close_of_huge_collateral_compares_exactly() {
    // A collateral above i64::MAX covers any i64 loss.
    let big = (1u64 << 63) + 5;
    let mut c = close_accounts(pool(10_000_000, 10_000_000, big), position(Side::Short, big, 100, 100));
    let closed = close_position_at_price(&mut c, 9, 200).unwrap();
    assert_eq!(closed.pnl, -100);
    assert_eq!(c.pool.locked_collateral, 0);
    assert_eq!(c.pool.total_liquidity, 10_000_100);
}

#[test]
fn close_with_pnl_beyond_i64_overflows() {
    let mut c = close_accounts(pool(10_000_000, 10_000_000, 1_000_000), position(Side::Long, 1_000_000, u64::MAX, 1));
    assert_eq!(close_position_at_price(&mut c, 9, i64::MAX), Err(PerpsError::MathOverflow));
}

#[test]
fn open_position_reads_the_oracle() {
    let bytes = pyth_bytes(150, 1, 1_000);
    let mut a = open_accounts(pool(10_000_000, 10_000_000, 0));
    let opened = open_position::handler(&mut a, 9, Side::Short, 2_000_000, 9_000_000, 5, &bytes, 1_010).unwrap();
    assert_eq!(opened.position.entry_price, 150);
    assert_eq!(opened.position.side, Side::Short);
    assert_eq!(opened.position.opened_at, 1_010);
    // The stricter of the market's 30 s and the protocol's 60 s applies.
    let mut b = open_accounts(pool(10_000_000, 10_000_000, 0));
    assert_eq!(
        open_position::handler(&mut b, 9, Side::Short, 2_000_000, 9_000_000, 5, &bytes, 1_031),
        Err(PerpsError::StaleOracle)
    );
    assert_eq!(
        open_position::handler(&mut b, 9, Side::Short, 2_000_000, 9_000_000, 5, &bytes[..10], 1_010),
        Err(PerpsError::InvalidOracle)
    );
}

#[test]
fn close_position_with_profit() {
    let mut c = close_accounts(pool(10_000_000, 10_000_000, 1_000_000), position(Side::Long, 1_000_000, 5_000_000, 100));
    let closed = close_position_at_price(&mut c, 9, 110).unwrap();
    // PnL 5_000_000 * 10 / 100 = 500_000; equity 1_500_000; fee 3_000.
    assert_eq!(closed, ClosedPosition { pnl: 500_000, close_fee: 3_000, payout: 1_497_000 });
    assert_eq!(c.pool.locked_collateral, 0);
    // The pool pays the profit; the fee comes out of the trader's equity.
    assert_eq!(c.pool.total_liquidity, 10_000_000 - 500_000);
    assert_eq!(c.treasury.collected_fees, 3_000);
}

#[test]
fn close_position_with_loss() {
    let mut c = close_accounts(pool(10_000_000, 10_000_000, 1_000_000), position(Side::Short, 1_000_000, 5_000_000, 100));
    let closed = close_position_at_price(&mut c, 9, 110).unwrap();
    assert_eq!(closed, ClosedPosition { pnl: -500_000, close_fee: 1_000, payout: 499_000 });
    assert_eq!(c.pool.total_liquidity, 10_000_000 + 500_000);
    assert_eq!(c.treasury.collected_fees, 1_000);
    assert_eq!(c.pool.locked_collateral, 0);
}

#[test]
fn close_position_refusals() {
    let base = close_accounts(pool(10_000_000, 10_000_000, 1_000_000), position(Side::Short, 1_000_000, 5_000_000, 100));
    let mut c = base;
    // A loss beyond the collateral.
    assert_eq!(close_position_at_price(&mut c, 9, 130), Err(PerpsError::PositionHealthy));
    assert_eq!(close_position_at_price(&mut c, 8, 110), Err(PerpsError::InvalidMarket));
    assert_eq!(close_position_at_price(&mut c, 9, 0), Err(PerpsError::InvalidPrice));
    assert_eq!(c, base);
    let mut stranger = base;
    stranger.user = addr(55);
    assert_eq!(close_position_at_price(&mut stranger, 9, 110), Err(PerpsError::InvalidOwner));
    let mut wrong_oracle = base;
    wrong_oracle.oracle = addr(66);
    assert_eq!(close_position_at_price(&mut wrong_oracle, 9, 110), Err(PerpsError::InvalidOracle));
    let mut thin_pool = close_accounts(pool(100, 100, 1_000_000), position(Side::Long, 1_000_000, 5_000_000, 100));
    assert_eq!(close_position_at_price(&mut thin_pool, 9, 110), Err(PerpsError::MathUnderflow));
    let mut unlocked = close_accounts(pool(10_000_000, 100, 0), position(Side::Long, 1_000_000, 5_000_000, 100));
    assert_eq!(close_position_at_price(&mut unlocked, 9, 110), Err(PerpsError::MathUnderflow));
}

#[test]
fn close_position_is_allowed_while_paused() {
    let mut c = close_accounts(pool(10_000_000, 10_000_000, 1_000_000), position(Side::Long, 1_000_000, 5_000_000, 100));
    c.market.paused = true;
    assert!(close_position_at_price(&mut c, 9, 110).is_ok());
}

#[test]
fn close_position_reads_the_oracle() {
    let bytes = pyth_bytes(110, 1, 2_000);
    let mut c = close_accounts(pool(10_000_000, 10_000_000, 1_000_000), position(Side::Long, 1_000_000, 5_000_000, 100));
    let closed = close_position::handler(&mut c, 9, &bytes, 2_010).unwrap();
    assert_eq!(closed.pnl, 500_000);
    let mut d = close_accounts(pool(10_000_000, 10_000_000, 1_000_000), position(Side::Long, 1_000_000, 5_000_000, 100));
    assert_eq!(close_position::handler(&mut d, 9, &bytes, 2_100), Err(PerpsError::StaleOracle));
}

#[test]
fn pause_needs_admin() {
    let mut a = PauseMarket { global_state: global(), admin: addr(ADMIN), market: market() };
    assert_eq!(pause_market::handler(&mut a, true), Ok(()));
    assert!(a.market.paused);
    assert_eq!(pause_market::handler(&mut a, false), Ok(()));
    assert!(!a.market.paused);
    let mut b = PauseMarket { global_state: global(), admin: addr(USER), market: market() };
    assert_eq!(pause_market::handler(&mut b, true), Err(PerpsError::Unauthorized));
    assert!(!b.market.paused);
}

#[test]
fn update_replaces_only_given_fields() {
    let mut a = UpdateMarket { global_state: global(), admin: addr(ADMIN), market: market() };
    assert_eq!(
        update_market::handler(&mut a, Some(addr(33)), None, Some(700), None, None, None, Some(5), None),
        Ok(())
    );
    let mut expected = market();
    expected.oracle = addr(33);
    expected.maintenance_margin_bps = 700;
    expected.max_staleness_seconds = 5;
    assert_eq!(a.market, expected);
    assert_eq!(update_market::handler(&mut a, None, None, None, None, None, None, None, None), Ok(()));
    assert_eq!(a.market, expected);
    let mut b = UpdateMarket { global_state: global(), admin: addr(USER), market: market() };
    assert_eq!(
        update_market::handler(&mut b, None, Some(2), None, None, None, None, None, None),
        Err(PerpsError::Unauthorized)
    );
    assert_eq!(b.market, market());
}

#[test]
fn address_comparison() {
    assert!(addr(4).key_eq(&addr(4)));
    let mut other = addr(4);
    other.bytes[31] = 0;
    assert!(!addr(4).key_eq(&other));
}
