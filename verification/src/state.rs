use vstd::prelude::*;

verus! {

/// A 32-byte account address.
#[derive(Debug, Clone, Copy, PartialEq, Eq)]
pub struct Address {
    pub bytes: [u8; 32],
}

impl View for Address {
    type V = Seq<u8>;

    open spec fn view(&self) -> Seq<u8> {
        self.bytes@
    }
}

impl Address {
    /// Whether two addresses hold the same bytes.
    pub fn key_eq(&self, other: &Address) -> (r: bool)
        ensures
            r == (self@ == other@),
    {
        let mut i: usize = 0;
        while i < 32
            invariant
                0 <= i <= 32,
                self@.len() == 32,
                other@.len() == 32,
                forall|j: int| 0 <= j < i ==> self@[j] == other@[j],
            decreases 32 - i,
        {
            if self.bytes[i] != other.bytes[i] {
                return false;
            }
            i = i + 1;
        }
        proof {
            assert(self@ =~= other@);
        }
        true
    }
}

/// Protocol-wide configuration.
#[derive(Debug, Clone, Copy, PartialEq, Eq)]
pub struct GlobalState {
    pub admin: Address,
    pub treasury: Address,
    pub max_staleness_seconds: i64,
    pub max_confidence_bps: u64,
    pub bump: u8,
}

/// Account that accumulates the protocol's fees.
#[derive(Debug, Clone, Copy, PartialEq, Eq)]
pub struct Treasury {
    pub authority: Address,
    pub collected_fees: u64,
    pub bump: u8,
}

/// A perpetual market and its risk parameters.
#[derive(Debug, Clone, Copy, PartialEq, Eq)]
pub struct Market {
    pub market_id: u16,
    pub oracle: Address,
    pub pool: Address,
    pub max_leverage: u8,
    pub maintenance_margin_bps: u16,
    pub open_fee_bps: u16,
    pub close_fee_bps: u16,
    pub liquidation_fee_bps: u16,
    pub max_staleness_seconds: i64,
    pub max_confidence_bps: u64,
    pub paused: bool,
    pub bump: u8,
}

/// The liquidity backing a market, and its share accounting.
#[derive(Debug, Clone, Copy, PartialEq, Eq)]
pub struct LiquidityPool {
    pub market_id: u16,
    pub vault: Address,
    pub lp_mint: Address,
    pub total_liquidity: u64,
    pub total_lp_shares: u64,
    pub locked_collateral: u64,
    pub bump: u8,
}

/// Direction of a position.
#[derive(Debug, Clone, Copy, PartialEq, Eq, Structural)]
pub enum Side {
    Long,
    Short,
}

/// A user's open position in one market.
#[derive(Debug, Clone, Copy, PartialEq, Eq)]
pub struct Position {
    pub owner: Address,
    pub market_id: u16,
    pub side: Side,
    pub collateral: u64,
    pub position_size: u64,
    pub leverage: u8,
    pub entry_price: i64,
    pub realized_pnl: i64,
    pub opened_at: i64,
    pub bump: u8,
}

} // verus!
