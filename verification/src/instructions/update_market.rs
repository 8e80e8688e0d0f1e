use vstd::prelude::*;

use crate::error::PerpsError;
use crate::state::{Address, GlobalState, Market};

verus! {

/// What updating a market reads and writes.
#[derive(Debug, Clone, Copy, PartialEq, Eq)]
pub struct UpdateMarket {
    pub global_state: GlobalState,
    pub admin: Address,
    pub market: Market,
}

/// `value` when given, else `current`.
pub open spec fn updated<T>(current: T, value: Option<T>) -> T {
    match value {
        Some(v) => v,
        None => current,
    }
}

/// The market with each given parameter replaced and every other field kept.
pub open spec fn spec_updated_market(
    market: Market,
    oracle: Option<Address>,
    max_leverage: Option<u8>,
    maintenance_margin_bps: Option<u16>,
    open_fee_bps: Option<u16>,
    close_fee_bps: Option<u16>,
    liquidation_fee_bps: Option<u16>,
    max_staleness_seconds: Option<i64>,
    max_confidence_bps: Option<u64>,
) -> Market {
    Market {
        oracle: updated(market.oracle, oracle),
        max_leverage: updated(market.max_leverage, max_leverage),
        maintenance_margin_bps: updated(market.maintenance_margin_bps, maintenance_margin_bps),
        open_fee_bps: updated(market.open_fee_bps, open_fee_bps),
        close_fee_bps: updated(market.close_fee_bps, close_fee_bps),
        liquidation_fee_bps: updated(market.liquidation_fee_bps, liquidation_fee_bps),
        max_staleness_seconds: updated(market.max_staleness_seconds, max_staleness_seconds),
        max_confidence_bps: updated(market.max_confidence_bps, max_confidence_bps),
        ..market
    }
}

/// Replaces the market parameters that are given; only the protocol's admin
/// may, and a refused call changes nothing.
pub fn handler(
    accounts: &mut UpdateMarket,
    oracle: Option<Address>,
    max_leverage: Option<u8>,
    maintenance_margin_bps: Option<u16>,
    open_fee_bps: Option<u16>,
    close_fee_bps: Option<u16>,
    liquidation_fee_bps: Option<u16>,
    max_staleness_seconds: Option<i64>,
    max_confidence_bps: Option<u64>,
) -> (r: Result<(), PerpsError>)
    ensures
        old(accounts).admin@ != old(accounts).global_state.admin@ ==> {
            &&& r == Err::<(), PerpsError>(PerpsError::Unauthorized)
            &&& *final(accounts) == *old(accounts)
        },
        old(accounts).admin@ == old(accounts).global_state.admin@ ==> {
            &&& r == Ok::<(), PerpsError>(())
            &&& *final(accounts) == (UpdateMarket {
                market: spec_updated_market(
                    old(accounts).market, oracle, max_leverage, maintenance_margin_bps, open_fee_bps,
                    close_fee_bps, liquidation_fee_bps, max_staleness_seconds, max_confidence_bps,
                ),
                ..*old(accounts)
            })
        },
{
    if !accounts.admin.key_eq(&accounts.global_state.admin) {
        return Err(PerpsError::Unauthorized);
    }
    if let Some(value) = oracle {
        accounts.market.oracle = value;
    }
    if let Some(value) = max_leverage {
        accounts.market.max_leverage = value;
    }
    if let Some(value) = maintenance_margin_bps {
        accounts.market.maintenance_margin_bps = value;
    }
    if let Some(value) = open_fee_bps {
        accounts.market.open_fee_bps = value;
    }
    if let Some(value) = close_fee_bps {
        accounts.market.close_fee_bps = value;
    }
    if let Some(value) = liquidation_fee_bps {
        accounts.market.liquidation_fee_bps = value;
    }
    if let Some(value) = max_staleness_seconds {
        accounts.market.max_staleness_seconds = value;
    }
    if let Some(value) = max_confidence_bps {
        accounts.market.max_confidence_bps = value;
    }
    Ok(())
}

} // verus!
