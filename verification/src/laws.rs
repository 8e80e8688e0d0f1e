use vstd::prelude::*;

use crate::constants::BASIS_POINTS_DIVISOR;
use crate::error::PerpsError;
use crate::instructions::add_liquidity::{spec_add_liquidity, spec_shares_for_deposit, AddLiquidity};
use crate::instructions::remove_liquidity::{spec_remove_liquidity, spec_withdraw_for_shares, RemoveLiquidity};
use crate::math::fees::spec_fee;
use crate::math::liquidation::{spec_maintenance_requirement, spec_margin_ratio_bps};
use crate::math::pnl::{spec_pnl, trunc_div};
use crate::instructions::close_position::{spec_close_position, spec_settle_close, ClosePosition};
use crate::instructions::open_position::{spec_open_position, spec_open_price, OpenPosition};
use crate::instructions::close_position::spec_close_price;
use crate::instructions::update_market::spec_updated_market;
use crate::instructions::create_market::{spec_new_market, CreateMarket};
use crate::constants::MIN_COLLATERAL_LAMPORTS;
use crate::math::oracle::{
    pyth_current_price, pyth_enum_fields_valid, pyth_price_account_header_ok, spec_check_oracle_price, OraclePrice,
};
use crate::state::{Address, LiquidityPool, Market, Side};

verus! {

/// A fee of at most 100% never exceeds the amount it is charged on.
pub proof fn law_fee_at_most_amount(amount: u64, fee_bps: u16)
    requires
        fee_bps <= BASIS_POINTS_DIVISOR,
    ensures
        0 <= spec_fee(amount, fee_bps) <= amount,
{
    let q = (amount as int * fee_bps as int) / BASIS_POINTS_DIVISOR as int;
    assert(0 <= q <= amount) by (nonlinear_arith)
        requires
            q == (amount as int * fee_bps as int) / 10_000int,
            0 <= fee_bps <= 10_000,
            0 <= amount,
    ;
}

/// A long and a short of the same size, entry and current price have
/// opposite profits.
pub proof fn law_pnl_antisymmetric(position_size: u64, entry_price: i64, current_price: i64)
    requires
        entry_price > 0,
    ensures
        spec_pnl(Side::Long, position_size, entry_price, current_price)
            == -spec_pnl(Side::Short, position_size, entry_price, current_price),
{
    let d = (current_price - entry_price) * position_size;
    assert((entry_price - current_price) * position_size == -d) by (nonlinear_arith)
        requires
            d == (current_price - entry_price) * position_size,
    ;
    assert(trunc_div(-d, entry_price as int) == -trunc_div(d, entry_price as int));
}

/// A long gains exactly when the price has risen (and a short when it has
/// fallen), as far as the rounding toward zero lets a gain show.
pub proof fn law_pnl_sign(position_size: u64, entry_price: i64, current_price: i64)
    requires
        entry_price > 0,
    ensures
        current_price >= entry_price ==> spec_pnl(Side::Long, position_size, entry_price, current_price) >= 0,
        current_price <= entry_price ==> spec_pnl(Side::Long, position_size, entry_price, current_price) <= 0,
        current_price <= entry_price ==> spec_pnl(Side::Short, position_size, entry_price, current_price) >= 0,
        current_price >= entry_price ==> spec_pnl(Side::Short, position_size, entry_price, current_price) <= 0,
{
    let up = (current_price - entry_price) * position_size;
    let down = (entry_price - current_price) * position_size;
    assert(current_price >= entry_price ==> up >= 0) by (nonlinear_arith)
        requires
            up == (current_price - entry_price) * position_size,
            position_size >= 0,
    ;
    assert(current_price <= entry_price ==> down >= 0) by (nonlinear_arith)
        requires
            down == (entry_price - current_price) * position_size,
            position_size >= 0,
    ;
    assert(up / (entry_price as int) >= 0 || up < 0) by (nonlinear_arith)
        requires
            entry_price > 0,
    ;
    assert(down / (entry_price as int) >= 0 || down < 0) by (nonlinear_arith)
        requires
            entry_price > 0,
    ;
    law_pnl_antisymmetric(position_size, entry_price, current_price);
}

/// Equity below the maintenance requirement means a margin ratio below the
/// maintenance margin: the two liquidation measures agree.
pub proof fn law_below_maintenance_means_low_margin_ratio(equity: u64, position_size: u64, maintenance_margin_bps: u16)
    requires
        position_size > 0,
        equity < spec_maintenance_requirement(position_size, maintenance_margin_bps),
    ensures
        spec_margin_ratio_bps(equity, position_size) < maintenance_margin_bps,
{
    let req = (position_size as int * maintenance_margin_bps as int) / 10_000int;
    assert(req >= 0) by (nonlinear_arith)
        requires
            req == (position_size as int * maintenance_margin_bps as int) / 10_000int,
            position_size >= 0,
            maintenance_margin_bps >= 0,
    ;
    let ratio = (equity as int * 10_000int) / position_size as int;
    assert(ratio < maintenance_margin_bps) by (nonlinear_arith)
        requires
            equity + 1 <= req,
            req == (position_size as int * maintenance_margin_bps as int) / 10_000int,
            ratio == (equity as int * 10_000int) / position_size as int,
            position_size > 0,
            equity >= 0,
            maintenance_margin_bps >= 0,
    ;
    assert(ratio >= 0) by (nonlinear_arith)
        requires
            ratio == (equity as int * 10_000int) / position_size as int,
            position_size > 0,
            equity >= 0,
    ;
}


/// Fewer shares than the exact proportion are minted for a deposit into a
/// pool that has both shares and liquidity.
proof fn lemma_deposit_shares_bound(liquidity: u64, total_shares: u64, amount: u64)
    requires
        liquidity > 0,
        total_shares > 0,
    ensures
        ({
            let s = (amount as int * total_shares as int) / liquidity as int;
            0 <= s && s * liquidity as int <= amount as int * total_shares as int
        }),
{
    let q = (amount as int * total_shares as int) / liquidity as int;
    assert(q >= 0 && q * liquidity <= amount as int * total_shares as int) by (nonlinear_arith)
        requires
            q == (amount as int * total_shares as int) / liquidity as int,
            liquidity > 0,
            amount >= 0,
            total_shares >= 0,
    ;
}

/// Redeeming the shares a deposit minted never pays out more than was
/// deposited. (Not so for a pool that holds liquidity but no shares: there a
/// deposit is minted one share per unit and the first redemption takes the
/// leftover liquidity too.)
pub proof fn law_redeeming_a_deposit_returns_at_most_the_deposit(
    a: AddLiquidity,
    market_id: u16,
    amount: u64,
    r: RemoveLiquidity,
    redeem_market_id: u16,
)
    requires
        !(a.pool.total_lp_shares == 0 && a.pool.total_liquidity > 0),
        spec_add_liquidity(a, market_id, amount).1 is Ok,
        r.pool == spec_add_liquidity(a, market_id, amount).0.pool,
        spec_remove_liquidity(r, redeem_market_id, spec_add_liquidity(a, market_id, amount).1->Ok_0).1 is Ok,
    ensures
        spec_remove_liquidity(r, redeem_market_id, spec_add_liquidity(a, market_id, amount).1->Ok_0).1->Ok_0
            <= amount,
{
    let l = a.pool.total_liquidity as int;
    let t = a.pool.total_lp_shares as int;
    let x = amount as int;
    let shares = spec_add_liquidity(a, market_id, amount).1->Ok_0;
    let s = shares as int;
    assert(shares == spec_shares_for_deposit(a.pool, amount));
    let w = spec_withdraw_for_shares(r.pool, shares);
    assert(r.pool.total_liquidity == l + x);
    assert(r.pool.total_lp_shares == t + s);
    assert(w == (s * (l + x)) / (t + s));
    if t == 0 || l == 0 {
        assert(s == x);
        assert(w <= x) by (nonlinear_arith)
            requires
                w == (s * (l + x)) / (t + s),
                s == x,
                x > 0,
                t >= 0,
                l == 0 || t == 0,
                !(t == 0 && l > 0),
        ;
    } else {
        lemma_deposit_shares_bound(a.pool.total_liquidity, a.pool.total_lp_shares, amount);
        assert(s * l <= x * t);
        assert(w <= x) by (nonlinear_arith)
            requires
                w == (s * (l + x)) / (t + s),
                s * l <= x * t,
                s > 0,
                t > 0,
                l > 0,
                x >= 0,
        ;
    }
}

/// A deposit never lowers the liquidity each share stands for:
/// `liquidity / shares` afterwards is at least what it was (compared
/// crosswise). Fails only for a pool holding liquidity but no shares.
pub proof fn law_deposit_never_dilutes_shares(a: AddLiquidity, market_id: u16, amount: u64)
    requires
        !(a.pool.total_lp_shares == 0 && a.pool.total_liquidity > 0),
        spec_add_liquidity(a, market_id, amount).1 is Ok,
    ensures
        ({
            let before = a.pool;
            let after = spec_add_liquidity(a, market_id, amount).0.pool;
            after.total_liquidity as int * before.total_lp_shares as int
                >= before.total_liquidity as int * after.total_lp_shares as int
        }),
{
    let l = a.pool.total_liquidity as int;
    let t = a.pool.total_lp_shares as int;
    let x = amount as int;
    let s = spec_add_liquidity(a, market_id, amount).1->Ok_0 as int;
    if t == 0 || l == 0 {
        assert((l + x) * t >= l * (t + s)) by (nonlinear_arith)
            requires
                l == 0 || t == 0,
                !(t == 0 && l > 0),
                x >= 0,
                t >= 0,
                s >= 0,
        ;
    } else {
        lemma_deposit_shares_bound(a.pool.total_liquidity, a.pool.total_lp_shares, amount);
        assert((l + x) * t >= l * (t + s)) by (nonlinear_arith)
            requires
                s * l <= x * t,
        ;
    }
}

/// A withdrawal never lowers the liquidity each remaining share stands for.
pub proof fn law_withdrawal_never_dilutes_shares(r: RemoveLiquidity, market_id: u16, shares: u64)
    requires
        spec_remove_liquidity(r, market_id, shares).1 is Ok,
    ensures
        ({
            let before = r.pool;
            let after = spec_remove_liquidity(r, market_id, shares).0.pool;
            after.total_liquidity as int * before.total_lp_shares as int
                >= before.total_liquidity as int * after.total_lp_shares as int
        }),
{
    let l = r.pool.total_liquidity as int;
    let t = r.pool.total_lp_shares as int;
    let s = shares as int;
    let w = spec_withdraw_for_shares(r.pool, shares);
    assert(w * t <= s * l) by (nonlinear_arith)
        requires
            w == (s * l) / t,
            t > 0,
            s >= 0,
            l >= 0,
    ;
    assert(w <= l) by (nonlinear_arith)
        requires
            w == (s * l) / t,
            0 < s <= t,
            l >= 0,
    ;
    let after = spec_remove_liquidity(r, market_id, shares).0.pool;
    assert(after.total_liquidity == l - w);
    assert(after.total_lp_shares == t - s);
    assert((l - w) * t >= l * (t - s)) by (nonlinear_arith)
        requires
            w * t <= s * l,
    ;
}

/// Opening a position and then closing it hands back exactly the collateral
/// the open locked in the pool: the pool's locked collateral returns to what
/// it was.
pub proof fn law_open_then_close_releases_collateral(
    a: OpenPosition,
    market_id: u16,
    side: Side,
    collateral: u64,
    position_size: u64,
    leverage: u8,
    entry_price: Result<i64, PerpsError>,
    now: i64,
    c: ClosePosition,
    close_market_id: u16,
    exit_price: Result<i64, PerpsError>,
)
    requires
        spec_open_position(a, market_id, side, collateral, position_size, leverage, entry_price, now).1 is Ok,
        c.pool == spec_open_position(a, market_id, side, collateral, position_size, leverage, entry_price, now).0.pool,
        c.position == spec_open_position(a, market_id, side, collateral, position_size, leverage, entry_price, now).1->Ok_0.position,
        spec_close_position(c, close_market_id, exit_price).1 is Ok,
    ensures
        spec_close_position(c, close_market_id, exit_price).0.pool.locked_collateral == a.pool.locked_collateral,
{
}

/// A settled close adds up: what the owner is paid plus the fee the treasury
/// takes is the position's collateral plus its profit (minus its loss); the
/// pool pays the profit out of its liquidity (or keeps the loss) and releases
/// the collateral; the treasury gains the fee. This needs a close fee of at
/// most 100% (a larger one leaves the owner nothing and the fee is taken in
/// full).
pub proof fn law_close_settlement_adds_up(c: ClosePosition, market_id: u16, exit_price: Result<i64, PerpsError>)
    requires
        spec_close_position(c, market_id, exit_price).1 is Ok,
        c.market.close_fee_bps <= BASIS_POINTS_DIVISOR,
    ensures
        ({
            let (after, result) = spec_close_position(c, market_id, exit_price);
            let closed = result->Ok_0;
            &&& closed.payout + closed.close_fee == c.position.collateral + closed.pnl
            &&& after.pool.total_liquidity == c.pool.total_liquidity - closed.pnl
            &&& after.pool.locked_collateral == c.pool.locked_collateral - c.position.collateral
            &&& after.treasury.collected_fees == c.treasury.collected_fees + closed.close_fee
        }),
{
    let closed = spec_close_position(c, market_id, exit_price).1->Ok_0;
    let price = exit_price->Ok_0;
    assert(spec_settle_close(c, price) is Ok);
    let pnl = closed.pnl;
    assert(pnl >= -(c.position.collateral as int));
    let equity = (c.position.collateral + pnl) as u64;
    law_fee_at_most_amount(equity, c.market.close_fee_bps);
}

/// What the pool's books account for: its liquidity plus the collateral
/// locked in open positions. The vault's lamports beyond this amount are
/// nobody's claim.
pub open spec fn pool_books(pool: LiquidityPool) -> int {
    pool.total_liquidity + pool.locked_collateral
}

/// Opening a position moves the books exactly as the vault moves: the vault
/// takes in the collateral and forwards the open fee to the treasury, and the
/// books grow by the collateral less that fee.
pub proof fn law_open_moves_books_with_vault(
    a: OpenPosition,
    market_id: u16,
    side: Side,
    collateral: u64,
    position_size: u64,
    leverage: u8,
    price: Result<i64, PerpsError>,
    now: i64,
)
    requires
        spec_open_position(a, market_id, side, collateral, position_size, leverage, price, now).1 is Ok,
    ensures
        ({
            let (after, result) = spec_open_position(a, market_id, side, collateral, position_size, leverage, price, now);
            pool_books(after.pool) == pool_books(a.pool) + collateral - result->Ok_0.open_fee
        }),
{
}

/// Closing a position moves the books exactly as the vault moves: the vault
/// pays out the close fee and the payout, and the books shrink by the same
/// amount, so the liquidity providers never pay the close fee. This needs a
/// close fee of at most 100%.
pub proof fn law_close_moves_books_with_vault(c: ClosePosition, market_id: u16, exit_price: Result<i64, PerpsError>)
    requires
        spec_close_position(c, market_id, exit_price).1 is Ok,
        c.market.close_fee_bps <= BASIS_POINTS_DIVISOR,
    ensures
        ({
            let (after, result) = spec_close_position(c, market_id, exit_price);
            pool_books(after.pool) == pool_books(c.pool) - (result->Ok_0.payout + result->Ok_0.close_fee)
        }),
{
    law_close_settlement_adds_up(c, market_id, exit_price);
}

/// A deposit moves the books exactly as the vault moves: both grow by the
/// amount deposited.
pub proof fn law_deposit_moves_books_with_vault(a: AddLiquidity, market_id: u16, amount: u64)
    requires
        spec_add_liquidity(a, market_id, amount).1 is Ok,
    ensures
        pool_books(spec_add_liquidity(a, market_id, amount).0.pool) == pool_books(a.pool) + amount,
{
}

/// A withdrawal moves the books exactly as the vault moves: both shrink by
/// the amount paid out.
pub proof fn law_withdrawal_moves_books_with_vault(r: RemoveLiquidity, market_id: u16, shares: u64)
    requires
        spec_remove_liquidity(r, market_id, shares).1 is Ok,
    ensures
        pool_books(spec_remove_liquidity(r, market_id, shares).0.pool)
            == pool_books(r.pool) - spec_remove_liquidity(r, market_id, shares).1->Ok_0,
{
    let l = r.pool.total_liquidity as int;
    let t = r.pool.total_lp_shares as int;
    let s = shares as int;
    let w = spec_withdraw_for_shares(r.pool, shares);
    assert(0 <= w <= l) by (nonlinear_arith)
        requires
            w == (s * l) / t,
            0 < s <= t,
            l >= 0,
    ;
}

/// A paused market opens no position, and a refused open changes nothing.
pub proof fn law_paused_market_opens_nothing(
    a: OpenPosition,
    market_id: u16,
    side: Side,
    collateral: u64,
    position_size: u64,
    leverage: u8,
    price: Result<i64, PerpsError>,
    now: i64,
)
    requires
        a.market.paused,
    ensures
        spec_open_position(a, market_id, side, collateral, position_size, leverage, price, now).1 is Err,
        spec_open_position(a, market_id, side, collateral, position_size, leverage, price, now).0 == a,
{
}

/// Pausing a market does not stop positions in it from being closed: a close
/// goes exactly the same way whether or not the market is paused.
pub proof fn law_close_ignores_pause(c: ClosePosition, market_id: u16, exit_price: Result<i64, PerpsError>, paused: bool)
    ensures
        ({
            let toggled = ClosePosition { market: Market { paused, ..c.market }, ..c };
            &&& spec_close_position(toggled, market_id, exit_price).1 == spec_close_position(c, market_id, exit_price).1
            &&& spec_close_position(toggled, market_id, exit_price).0.pool == spec_close_position(c, market_id, exit_price).0.pool
            &&& spec_close_position(toggled, market_id, exit_price).0.treasury == spec_close_position(c, market_id, exit_price).0.treasury
        }),
{
}

/// Every opened position respects the market's leverage limit, posts at
/// least the required margin `position_size / leverage` after the open fee,
/// and is entered at the oracle price; the deposit is split between the
/// position's collateral and the open fee, and the pool's liquidity and
/// shares are untouched.
pub proof fn law_opened_position_is_within_limits(
    a: OpenPosition,
    market_id: u16,
    side: Side,
    collateral: u64,
    position_size: u64,
    leverage: u8,
    price: Result<i64, PerpsError>,
    now: i64,
)
    requires
        spec_open_position(a, market_id, side, collateral, position_size, leverage, price, now).1 is Ok,
    ensures
        ({
            let (after, result) = spec_open_position(a, market_id, side, collateral, position_size, leverage, price, now);
            let position = result->Ok_0.position;
            &&& position.collateral + result->Ok_0.open_fee == collateral
            &&& after.pool.total_liquidity == a.pool.total_liquidity
            &&& after.pool.total_lp_shares == a.pool.total_lp_shares
            &&& 1 <= position.leverage <= a.market.max_leverage
            &&& position.position_size > 0
            &&& position.collateral >= position_size as int / leverage as int
            &&& position.leverage == leverage
            &&& position.side == side
            &&& position.collateral <= collateral
            &&& price == Ok::<i64, PerpsError>(position.entry_price)
            &&& position.owner == a.user
        }),
{
}

/// A price that passes the oracle checks is positive, fresh within the
/// staleness limit, and its confidence interval is within the limit.
pub proof fn law_checked_price_is_sound(price: OraclePrice, now: i64, max_staleness_seconds: i64, max_confidence_bps: u64)
    requires
        spec_check_oracle_price(price, now, max_staleness_seconds, max_confidence_bps) is Ok,
    ensures
        ({
            let p = spec_check_oracle_price(price, now, max_staleness_seconds, max_confidence_bps)->Ok_0;
            &&& p == price.price
            &&& p > 0
            &&& max_staleness_seconds >= 0
            &&& price.publish_time - now <= max_staleness_seconds
            &&& now - price.publish_time <= max_staleness_seconds
            &&& price.conf as int * BASIS_POINTS_DIVISOR as int <= p as int * max_confidence_bps as int
        }),
{
}

/// Updating a market puts each parameter that is given into its own field and
/// keeps every parameter that is not given, as well as the market's id, pool,
/// pause flag and bump.
pub proof fn law_update_sets_exactly_the_given_parameters(
    market: Market,
    oracle: Option<Address>,
    max_leverage: Option<u8>,
    maintenance_margin_bps: Option<u16>,
    open_fee_bps: Option<u16>,
    close_fee_bps: Option<u16>,
    liquidation_fee_bps: Option<u16>,
    max_staleness_seconds: Option<i64>,
    max_confidence_bps: Option<u64>,
)
    ensures
        ({
            let m = spec_updated_market(
                market, oracle, max_leverage, maintenance_margin_bps, open_fee_bps, close_fee_bps,
                liquidation_fee_bps, max_staleness_seconds, max_confidence_bps,
            );
            &&& (oracle matches Some(v) ==> m.oracle == v)
            &&& (oracle is None ==> m.oracle == market.oracle)
            &&& (max_leverage matches Some(v) ==> m.max_leverage == v)
            &&& (max_leverage is None ==> m.max_leverage == market.max_leverage)
            &&& (maintenance_margin_bps matches Some(v) ==> m.maintenance_margin_bps == v)
            &&& (maintenance_margin_bps is None ==> m.maintenance_margin_bps == market.maintenance_margin_bps)
            &&& (open_fee_bps matches Some(v) ==> m.open_fee_bps == v)
            &&& (open_fee_bps is None ==> m.open_fee_bps == market.open_fee_bps)
            &&& (close_fee_bps matches Some(v) ==> m.close_fee_bps == v)
            &&& (close_fee_bps is None ==> m.close_fee_bps == market.close_fee_bps)
            &&& (liquidation_fee_bps matches Some(v) ==> m.liquidation_fee_bps == v)
            &&& (liquidation_fee_bps is None ==> m.liquidation_fee_bps == market.liquidation_fee_bps)
            &&& (max_staleness_seconds matches Some(v) ==> m.max_staleness_seconds == v)
            &&& (max_staleness_seconds is None ==> m.max_staleness_seconds == market.max_staleness_seconds)
            &&& (max_confidence_bps matches Some(v) ==> m.max_confidence_bps == v)
            &&& (max_confidence_bps is None ==> m.max_confidence_bps == market.max_confidence_bps)
            &&& m.market_id == market.market_id
            &&& m.pool == market.pool
            &&& m.paused == market.paused
            &&& m.bump == market.bump
        }),
{
}

/// Whether an open passes the checks made before the price is used: enough
/// collateral, a nonzero size, a leverage between 1 and the market's limit, a
/// running market, the market asked for and the market's oracle.
pub open spec fn open_inputs_acceptable(
    a: OpenPosition,
    market_id: u16,
    collateral: u64,
    position_size: u64,
    leverage: u8,
) -> bool {
    &&& collateral >= MIN_COLLATERAL_LAMPORTS
    &&& position_size > 0
    &&& 1 <= leverage <= a.market.max_leverage
    &&& !a.market.paused
    &&& a.market.market_id == market_id
    &&& a.market.oracle@ == a.oracle@
}

/// An open whose collateral, after the open fee of `open_fee_bps` basis points
/// (rounded down), is below the required margin `position_size / leverage` is
/// refused with `InvalidCollateral`, and changes nothing, once the earlier
/// checks pass and the fee fits in the collateral and the treasury.
pub proof fn law_open_below_margin_is_refused(
    a: OpenPosition,
    market_id: u16,
    side: Side,
    collateral: u64,
    position_size: u64,
    leverage: u8,
    entry_price: i64,
    now: i64,
)
    requires
        open_inputs_acceptable(a, market_id, collateral, position_size, leverage),
        collateral as int * a.market.open_fee_bps as int / 10_000 <= collateral,
        a.treasury.collected_fees + collateral as int * a.market.open_fee_bps as int / 10_000 <= u64::MAX,
        collateral - collateral as int * a.market.open_fee_bps as int / 10_000
            < position_size as int / leverage as int,
    ensures
        spec_open_position(a, market_id, side, collateral, position_size, leverage, Ok::<i64, PerpsError>(entry_price), now).1
            == Err::<crate::instructions::open_position::OpenedPosition, PerpsError>(PerpsError::InvalidCollateral),
        spec_open_position(a, market_id, side, collateral, position_size, leverage, Ok::<i64, PerpsError>(entry_price), now).0
            == a,
{
}

/// An open that passes the checks, whose fee fits in the collateral and the
/// treasury, whose remaining collateral covers `position_size / leverage`, and
/// whose collateral fits in the pool's locked total, succeeds: the position
/// holds the collateral less the fee, at the given price, size, leverage and
/// side; the treasury gains the fee and the pool locks the collateral.
pub proof fn law_covered_open_succeeds(
    a: OpenPosition,
    market_id: u16,
    side: Side,
    collateral: u64,
    position_size: u64,
    leverage: u8,
    entry_price: i64,
    now: i64,
)
    requires
        open_inputs_acceptable(a, market_id, collateral, position_size, leverage),
        collateral as int * a.market.open_fee_bps as int / 10_000 <= collateral,
        a.treasury.collected_fees + collateral as int * a.market.open_fee_bps as int / 10_000 <= u64::MAX,
        collateral - collateral as int * a.market.open_fee_bps as int / 10_000
            >= position_size as int / leverage as int,
        a.pool.locked_collateral + collateral - collateral as int * a.market.open_fee_bps as int / 10_000
            <= u64::MAX,
    ensures
        ({
            let fee = collateral as int * a.market.open_fee_bps as int / 10_000;
            let (after, result) = spec_open_position(
                a, market_id, side, collateral, position_size, leverage, Ok::<i64, PerpsError>(entry_price), now,
            );
            &&& result is Ok
            &&& result->Ok_0.open_fee == fee
            &&& result->Ok_0.position.collateral == collateral - fee
            &&& result->Ok_0.position.position_size == position_size
            &&& result->Ok_0.position.leverage == leverage
            &&& result->Ok_0.position.side == side
            &&& result->Ok_0.position.entry_price == entry_price
            &&& result->Ok_0.position.market_id == market_id
            &&& result->Ok_0.position.opened_at == now
            &&& after.treasury.collected_fees == a.treasury.collected_fees + fee
            &&& after.pool.locked_collateral == a.pool.locked_collateral + collateral - fee
            &&& after.pool.total_liquidity == a.pool.total_liquidity
        }),
{
}

/// A price that is positive, published within `max_staleness_seconds` of
/// `now` either way (before or after), and whose confidence interval is within
/// `max_confidence_bps` basis points of it, is accepted as it is.
pub proof fn law_fresh_confident_price_is_accepted(
    price: OraclePrice,
    now: i64,
    max_staleness_seconds: i64,
    max_confidence_bps: u64,
)
    requires
        price.price > 0,
        max_staleness_seconds >= 0,
        price.publish_time - now <= max_staleness_seconds,
        now - price.publish_time <= max_staleness_seconds,
        price.conf as int * 10_000 <= price.price as int * max_confidence_bps as int,
    ensures
        spec_check_oracle_price(price, now, max_staleness_seconds, max_confidence_bps) == Ok::<i64, PerpsError>(
            price.price,
        ),
{
}

/// A price published more than `max_staleness_seconds` before or after `now`,
/// or checked against a negative limit, is refused as stale, whatever else
/// holds of it.
pub proof fn law_stale_price_is_refused(price: OraclePrice, now: i64, max_staleness_seconds: i64, max_confidence_bps: u64)
    requires
        max_staleness_seconds < 0 || price.publish_time - now > max_staleness_seconds || now - price.publish_time
            > max_staleness_seconds,
    ensures
        spec_check_oracle_price(price, now, max_staleness_seconds, max_confidence_bps) == Err::<i64, PerpsError>(
            PerpsError::StaleOracle,
        ),
{
}

/// Whether the oracle account `data` holds, at `now`, a positive current price
/// published within `max_staleness_seconds` of `now` and with a confidence
/// interval within `max_confidence_bps` basis points of it.
pub open spec fn oracle_price_within(data: Seq<u8>, now: i64, max_staleness_seconds: i64, max_confidence_bps: u64) -> bool {
    let p = pyth_current_price(data);
    &&& pyth_price_account_header_ok(data)
    &&& pyth_enum_fields_valid(data)
    &&& p.price > 0
    &&& max_staleness_seconds >= 0
    &&& p.publish_time - now <= max_staleness_seconds
    &&& now - p.publish_time <= max_staleness_seconds
    &&& p.conf as int * 10_000 <= p.price as int * max_confidence_bps as int
}

/// A close settles only at an oracle price that meets both the market's and
/// the protocol's staleness and confidence limits; a close refused for any
/// reason changes no account.
pub proof fn law_close_uses_the_stricter_oracle_limits(c: ClosePosition, market_id: u16, data: Seq<u8>, now: i64)
    ensures
        ({
            let (after, result) = spec_close_position(c, market_id, spec_close_price(c, data, now));
            &&& result is Ok ==> oracle_price_within(
                data, now, c.market.max_staleness_seconds, c.market.max_confidence_bps,
            )
            &&& result is Ok ==> oracle_price_within(
                data, now, c.global_state.max_staleness_seconds, c.global_state.max_confidence_bps,
            )
            &&& result is Ok ==> result->Ok_0.pnl == crate::math::pnl::spec_pnl(
                c.position.side, c.position.position_size, c.position.entry_price, pyth_current_price(data).price,
            )
            &&& result is Err ==> after == c
        }),
{
    let (after, result) = spec_close_position(c, market_id, spec_close_price(c, data, now));
    if result is Ok {
        let p = pyth_current_price(data);
        let m = c.market.max_confidence_bps;
        let g = c.global_state.max_confidence_bps;
        let lim = if m <= g { m } else { g };
        assert(p.conf as int * 10_000 <= p.price as int * lim as int);
        assert(p.price as int * lim as int <= p.price as int * m as int) by (nonlinear_arith)
            requires
                p.price > 0,
                lim <= m,
        ;
        assert(p.price as int * lim as int <= p.price as int * g as int) by (nonlinear_arith)
            requires
                p.price > 0,
                lim <= g,
        ;
    }
}

/// An open enters only at an oracle price that meets both the market's and
/// the protocol's staleness and confidence limits, and at that price; an open
/// refused for any reason changes no account.
pub proof fn law_open_uses_the_stricter_oracle_limits(
    a: OpenPosition,
    market_id: u16,
    side: Side,
    collateral: u64,
    position_size: u64,
    leverage: u8,
    data: Seq<u8>,
    now: i64,
)
    ensures
        ({
            let (after, result) = spec_open_position(
                a, market_id, side, collateral, position_size, leverage, spec_open_price(a, data, now), now,
            );
            &&& result is Ok ==> oracle_price_within(
                data, now, a.market.max_staleness_seconds, a.market.max_confidence_bps,
            )
            &&& result is Ok ==> oracle_price_within(
                data, now, a.global_state.max_staleness_seconds, a.global_state.max_confidence_bps,
            )
            &&& result is Ok ==> result->Ok_0.position.entry_price == pyth_current_price(data).price
            &&& result is Err ==> after == a
        }),
{
    let (after, result) = spec_open_position(
        a, market_id, side, collateral, position_size, leverage, spec_open_price(a, data, now), now,
    );
    if result is Ok {
        let p = pyth_current_price(data);
        let m = a.market.max_confidence_bps;
        let g = a.global_state.max_confidence_bps;
        let lim = if m <= g { m } else { g };
        assert(p.conf as int * 10_000 <= p.price as int * lim as int);
        assert(p.price as int * lim as int <= p.price as int * m as int) by (nonlinear_arith)
            requires
                p.price > 0,
                lim <= m,
        ;
        assert(p.price as int * lim as int <= p.price as int * g as int) by (nonlinear_arith)
            requires
                p.price > 0,
                lim <= g,
        ;
    }
}

/// A withdrawal that passes the account, pause and share checks, and whose
/// amount `shares * total_liquidity / total_lp_shares` (rounded down) is
/// covered by the vault's lamports beyond the locked collateral, succeeds: it
/// pays exactly that amount and takes it and the shares out of the pool.
pub proof fn law_covered_withdrawal_succeeds(r: RemoveLiquidity, market_id: u16, shares: u64)
    requires
        shares > 0,
        !r.market.paused,
        r.market.market_id == market_id,
        r.pool.lp_mint@ == r.lp_mint@,
        r.pool.vault@ == r.vault@,
        r.user_lp_ata_owner@ == r.user@,
        shares <= r.pool.total_lp_shares,
        r.pool.locked_collateral <= r.vault_lamports,
        shares as int * r.pool.total_liquidity as int / r.pool.total_lp_shares as int
            <= r.vault_lamports - r.pool.locked_collateral,
    ensures
        ({
            let w = shares as int * r.pool.total_liquidity as int / r.pool.total_lp_shares as int;
            let (after, result) = spec_remove_liquidity(r, market_id, shares);
            &&& result == Ok::<u64, PerpsError>(w as u64)
            &&& after.pool.total_liquidity == r.pool.total_liquidity - w
            &&& after.pool.total_lp_shares == r.pool.total_lp_shares - shares
            &&& after.pool.locked_collateral == r.pool.locked_collateral
        }),
{
    let l = r.pool.total_liquidity as int;
    let t = r.pool.total_lp_shares as int;
    let s = shares as int;
    assert(0 <= (s * l) / t <= l) by (nonlinear_arith)
        requires
            0 < s <= t,
            l >= 0,
    ;
}

/// A deposit that passes the account and pause checks mints one share per
/// unit into a pool without shares or liquidity, and otherwise
/// `amount * total_lp_shares / total_liquidity` shares (rounded down), when
/// that is a nonzero number the pool's totals can hold; the pool takes in the
/// amount and the shares.
pub proof fn law_acceptable_deposit_succeeds(a: AddLiquidity, market_id: u16, amount: u64)
    requires
        amount > 0,
        a.market.market_id == market_id,
        a.pool.lp_mint@ == a.lp_mint@,
        a.pool.vault@ == a.vault@,
        !a.market.paused,
        ({
            let s = if a.pool.total_lp_shares == 0 || a.pool.total_liquidity == 0 {
                amount as int
            } else {
                amount as int * a.pool.total_lp_shares as int / a.pool.total_liquidity as int
            };
            &&& 0 < s
            &&& a.pool.total_lp_shares + s <= u64::MAX
            &&& a.pool.total_liquidity + amount <= u64::MAX
        }),
    ensures
        ({
            let s = if a.pool.total_lp_shares == 0 || a.pool.total_liquidity == 0 {
                amount as int
            } else {
                amount as int * a.pool.total_lp_shares as int / a.pool.total_liquidity as int
            };
            let (after, result) = spec_add_liquidity(a, market_id, amount);
            &&& result == Ok::<u64, PerpsError>(s as u64)
            &&& after.pool.total_liquidity == a.pool.total_liquidity + amount
            &&& after.pool.total_lp_shares == a.pool.total_lp_shares + s
            &&& after.pool.locked_collateral == a.pool.locked_collateral
        }),
{
}


/// The fee is the largest whole number of lamports not above `fee_bps` basis
/// points of the amount.
pub proof fn law_fee_is_rounded_down_share(amount: u64, fee_bps: u16)
    ensures
        spec_fee(amount, fee_bps) * 10_000 <= amount as int * fee_bps as int,
        (amount as int) * (fee_bps as int) < spec_fee(amount, fee_bps) * 10_000 + 10_000,
{
    let x = amount as int * fee_bps as int;
    assert(x / 10_000 * 10_000 <= x < x / 10_000 * 10_000 + 10_000) by (nonlinear_arith)
        requires
            x >= 0,
    ;
}

/// The maintenance requirement is the largest whole number not above
/// `maintenance_margin_bps` basis points of the position size, and the margin
/// ratio the largest whole number of basis points of the size not above the
/// equity (zero for a position of size zero).
pub proof fn law_liquidation_measures_round_down(equity: u64, position_size: u64, maintenance_margin_bps: u16)
    ensures
        spec_maintenance_requirement(position_size, maintenance_margin_bps) * 10_000
            <= position_size as int * maintenance_margin_bps as int,
        (position_size as int) * (maintenance_margin_bps as int)
            < spec_maintenance_requirement(position_size, maintenance_margin_bps) * 10_000 + 10_000,
        position_size == 0 ==> spec_margin_ratio_bps(equity, position_size) == 0,
        position_size > 0 ==> spec_margin_ratio_bps(equity, position_size) * position_size <= equity as int * 10_000,
        position_size > 0 ==> equity as int * 10_000 < (spec_margin_ratio_bps(equity, position_size) + 1)
            * position_size,
{
    let x = position_size as int * maintenance_margin_bps as int;
    assert(x / 10_000 * 10_000 <= x < x / 10_000 * 10_000 + 10_000) by (nonlinear_arith)
        requires
            x >= 0,
    ;
    if position_size > 0 {
        let y = equity as int * 10_000;
        let n = position_size as int;
        assert(y / n * n <= y < (y / n + 1) * n) by (nonlinear_arith)
            requires
                y >= 0,
                n > 0,
        ;
    }
}

/// A long's profit is the price move times the size over the entry price,
/// rounded toward zero: a gain never shows more than it earned and misses
/// less than one unit, and a loss likewise.
pub proof fn law_pnl_rounds_toward_zero(position_size: u64, entry_price: i64, current_price: i64)
    requires
        entry_price > 0,
    ensures
        ({
            let d = (current_price - entry_price) * position_size;
            let p = spec_pnl(Side::Long, position_size, entry_price, current_price);
            let e = entry_price as int;
            &&& d >= 0 ==> 0 <= p && p * e <= d && d < (p + 1) * e
            &&& d < 0 ==> p <= 0 && (-p) * e <= -d && -d < (-p + 1) * e
            &&& spec_pnl(Side::Short, position_size, entry_price, current_price) == -p
        }),
{
    let d = (current_price - entry_price) * position_size;
    let e = entry_price as int;
    if d >= 0 {
        assert(0 <= d / e && d / e * e <= d && d < (d / e + 1) * e) by (nonlinear_arith)
            requires
                d >= 0,
                e > 0,
        ;
    } else {
        let m = -d;
        assert(0 <= m / e && m / e * e <= m && m < (m / e + 1) * e) by (nonlinear_arith)
            requires
                m > 0,
                e > 0,
        ;
    }
    law_pnl_antisymmetric(position_size, entry_price, current_price);
}

/// A settled close books the position's profit or loss at the exit price, never
/// a loss beyond the collateral, and charges the close fee on the equity
/// (collateral plus profit), rounded down; the owner is paid the equity less
/// the fee, or nothing when the fee takes it all.
pub proof fn law_close_charges_fee_on_equity(c: ClosePosition, market_id: u16, exit_price: Result<i64, PerpsError>)
    requires
        spec_close_position(c, market_id, exit_price).1 is Ok,
    ensures
        ({
            let closed = spec_close_position(c, market_id, exit_price).1->Ok_0;
            let equity = c.position.collateral + closed.pnl;
            &&& exit_price is Ok
            &&& closed.pnl == spec_pnl(
                c.position.side, c.position.position_size, c.position.entry_price, exit_price->Ok_0,
            )
            &&& equity >= 0
            &&& closed.close_fee * 10_000 <= equity * c.market.close_fee_bps as int
            &&& equity * (c.market.close_fee_bps as int) < closed.close_fee * 10_000 + 10_000
            &&& closed.payout == (if equity >= closed.close_fee { equity - closed.close_fee } else { 0 })
        }),
{
    let closed = spec_close_position(c, market_id, exit_price).1->Ok_0;
    let equity = c.position.collateral + closed.pnl;
    assert(spec_settle_close(c, exit_price->Ok_0) is Ok);
    law_fee_is_rounded_down_share(equity as u64, c.market.close_fee_bps);
}

/// A close whose loss at the exit price exceeds the collateral is refused with
/// `PositionHealthy` and changes nothing, once the market, oracle and owner
/// checks pass and both prices are positive.
pub proof fn law_loss_beyond_collateral_is_refused(c: ClosePosition, market_id: u16, exit_price: i64)
    requires
        c.market.market_id == market_id,
        c.market.oracle@ == c.oracle@,
        c.position.owner@ == c.user@,
        c.position.entry_price > 0,
        exit_price > 0,
        i64::MIN <= spec_pnl(c.position.side, c.position.position_size, c.position.entry_price, exit_price),
        spec_pnl(c.position.side, c.position.position_size, c.position.entry_price, exit_price)
            < -(c.position.collateral as int),
    ensures
        spec_close_position(c, market_id, Ok::<i64, PerpsError>(exit_price)).1
            == Err::<crate::instructions::close_position::ClosedPosition, PerpsError>(PerpsError::PositionHealthy),
        spec_close_position(c, market_id, Ok::<i64, PerpsError>(exit_price)).0 == c,
{
}

/// A created market holds each given parameter in its own field, runs, and
/// records the addresses and bumps it was created with; its pool is empty.
pub proof fn law_created_market_holds_its_parameters(
    accounts: CreateMarket,
    market_id: u16,
    oracle: Address,
    max_leverage: u8,
    maintenance_margin_bps: u16,
    open_fee_bps: u16,
    close_fee_bps: u16,
    liquidation_fee_bps: u16,
    max_staleness_seconds: i64,
    max_confidence_bps: u64,
)
    ensures
        ({
            let (m, p) = spec_new_market(
                accounts, market_id, oracle, max_leverage, maintenance_margin_bps, open_fee_bps, close_fee_bps,
                liquidation_fee_bps, max_staleness_seconds, max_confidence_bps,
            );
            &&& m.market_id == market_id
            &&& m.oracle == oracle
            &&& m.pool == accounts.pool
            &&& m.max_leverage == max_leverage
            &&& m.maintenance_margin_bps == maintenance_margin_bps
            &&& m.open_fee_bps == open_fee_bps
            &&& m.close_fee_bps == close_fee_bps
            &&& m.liquidation_fee_bps == liquidation_fee_bps
            &&& m.max_staleness_seconds == max_staleness_seconds
            &&& m.max_confidence_bps == max_confidence_bps
            &&& !m.paused
            &&& m.bump == accounts.market_bump
            &&& p.market_id == market_id
            &&& p.vault == accounts.vault
            &&& p.lp_mint == accounts.lp_mint
            &&& p.total_liquidity == 0
            &&& p.total_lp_shares == 0
            &&& p.locked_collateral == 0
            &&& p.bump == accounts.pool_bump
        }),
{
}

/// The checks an open makes before it uses the price, each with its own error,
/// in order; past them, an oracle error is the open's error.
pub proof fn law_open_refusals(
    a: OpenPosition,
    market_id: u16,
    side: Side,
    collateral: u64,
    position_size: u64,
    leverage: u8,
    price: Result<i64, PerpsError>,
    now: i64,
)
    ensures
        ({
            let r = spec_open_position(a, market_id, side, collateral, position_size, leverage, price, now).1;
            let c0 = collateral >= MIN_COLLATERAL_LAMPORTS;
            let c1 = c0 && position_size > 0;
            let c2 = c1 && 1 <= leverage <= a.market.max_leverage;
            let c3 = c2 && !a.market.paused;
            let c4 = c3 && a.market.market_id == market_id;
            &&& !c0 ==> r == Err::<crate::instructions::open_position::OpenedPosition, PerpsError>(PerpsError::InvalidCollateral)
            &&& c0 && position_size == 0 ==> r == Err::<crate::instructions::open_position::OpenedPosition, PerpsError>(PerpsError::InvalidAmount)
            &&& c1 && !(1 <= leverage <= a.market.max_leverage) ==> r == Err::<crate::instructions::open_position::OpenedPosition, PerpsError>(PerpsError::InvalidLeverage)
            &&& c2 && a.market.paused ==> r == Err::<crate::instructions::open_position::OpenedPosition, PerpsError>(PerpsError::MarketPaused)
            &&& c3 && a.market.market_id != market_id ==> r == Err::<crate::instructions::open_position::OpenedPosition, PerpsError>(PerpsError::InvalidMarket)
            &&& c4 && a.market.oracle@ != a.oracle@ ==> r == Err::<crate::instructions::open_position::OpenedPosition, PerpsError>(PerpsError::InvalidOracle)
            &&& open_inputs_acceptable(a, market_id, collateral, position_size, leverage) && price is Err
                ==> r == Err::<crate::instructions::open_position::OpenedPosition, PerpsError>(price->Err_0)
        }),
{
}

/// The checks a close makes before it uses the price, each with its own error,
/// in order; past them, an oracle error is the close's error.
pub proof fn law_close_refusals(c: ClosePosition, market_id: u16, price: Result<i64, PerpsError>)
    ensures
        ({
            let r = spec_close_position(c, market_id, price).1;
            &&& c.market.market_id != market_id ==> r == Err::<crate::instructions::close_position::ClosedPosition, PerpsError>(PerpsError::InvalidMarket)
            &&& c.market.market_id == market_id && c.market.oracle@ != c.oracle@ ==> r == Err::<crate::instructions::close_position::ClosedPosition, PerpsError>(PerpsError::InvalidOracle)
            &&& c.market.market_id == market_id && c.market.oracle@ == c.oracle@ && c.position.owner@ != c.user@
                ==> r == Err::<crate::instructions::close_position::ClosedPosition, PerpsError>(PerpsError::InvalidOwner)
            &&& c.market.market_id == market_id && c.market.oracle@ == c.oracle@ && c.position.owner@ == c.user@
                && price is Err ==> r == Err::<crate::instructions::close_position::ClosedPosition, PerpsError>(price->Err_0)
        }),
{
}

/// The checks a deposit makes, each with its own error, in order.
pub proof fn law_deposit_refusals(a: AddLiquidity, market_id: u16, amount: u64)
    ensures
        ({
            let (after, r) = spec_add_liquidity(a, market_id, amount);
            &&& amount == 0 ==> r == Err::<u64, PerpsError>(PerpsError::InvalidAmount)
            &&& amount > 0 && a.market.market_id != market_id ==> r == Err::<u64, PerpsError>(PerpsError::InvalidMarket)
            &&& amount > 0 && a.market.market_id == market_id && (a.pool.lp_mint@ != a.lp_mint@ || a.pool.vault@ != a.vault@)
                ==> r == Err::<u64, PerpsError>(PerpsError::InvalidMarket)
            &&& amount > 0 && a.market.market_id == market_id && a.pool.lp_mint@ == a.lp_mint@ && a.pool.vault@ == a.vault@
                && a.market.paused ==> r == Err::<u64, PerpsError>(PerpsError::MarketPaused)
            &&& r is Err ==> after == a
        }),
{
}

/// The checks a withdrawal makes, each with its own error, in order.
pub proof fn law_withdrawal_refusals(r: RemoveLiquidity, market_id: u16, shares: u64)
    ensures
        ({
            let (after, res) = spec_remove_liquidity(r, market_id, shares);
            let c0 = shares > 0 && !r.market.paused;
            let c1 = c0 && r.market.market_id == market_id && r.pool.lp_mint@ == r.lp_mint@ && r.pool.vault@ == r.vault@;
            let c2 = c1 && r.user_lp_ata_owner@ == r.user@;
            &&& shares == 0 ==> res == Err::<u64, PerpsError>(PerpsError::InvalidAmount)
            &&& shares > 0 && r.market.paused ==> res == Err::<u64, PerpsError>(PerpsError::MarketPaused)
            &&& c0 && !(r.market.market_id == market_id && r.pool.lp_mint@ == r.lp_mint@ && r.pool.vault@ == r.vault@)
                ==> res == Err::<u64, PerpsError>(PerpsError::InvalidMarket)
            &&& c1 && r.user_lp_ata_owner@ != r.user@ ==> res == Err::<u64, PerpsError>(PerpsError::InvalidOwner)
            &&& c2 && shares > r.pool.total_lp_shares ==> res == Err::<u64, PerpsError>(PerpsError::InsufficientShares)
            &&& c2 && shares <= r.pool.total_lp_shares && (r.vault_lamports < r.pool.locked_collateral
                || shares as int * r.pool.total_liquidity as int / r.pool.total_lp_shares as int
                    > r.vault_lamports - r.pool.locked_collateral)
                ==> res == Err::<u64, PerpsError>(PerpsError::InsufficientLiquidity)
            &&& res is Err ==> after == r
        }),
{
}

} // verus!
