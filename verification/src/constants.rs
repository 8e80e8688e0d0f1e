use vstd::prelude::*;

verus! {

/// Fees, margins and confidence limits are expressed in basis points of this divisor.
pub const BASIS_POINTS_DIVISOR: u64 = 10_000;

/// The least collateral, in lamports, a position can be opened with.
pub const MIN_COLLATERAL_LAMPORTS: u64 = 1_000_000;

/// Oracle staleness limit the protocol starts with, in seconds.
pub const DEFAULT_MAX_STALENESS_SECONDS: i64 = 60;

/// Oracle confidence limit the protocol starts with, in basis points of the price.
pub const DEFAULT_MAX_CONFIDENCE_BPS: u64 = 100;

/// Decimals of the liquidity-provider share token.
pub const LP_DECIMALS: u8 = 9;

} // verus!
