use vstd::prelude::*;

verus! {

/// Every way an instruction of the protocol can be refused.
#[derive(Debug, Clone, Copy, PartialEq, Eq, Structural)]
pub enum PerpsError {
    Unauthorized,
    ProtocolPaused,
    MarketPaused,
    InvalidMarket,
    InvalidOracle,
    StaleOracle,
    InvalidConfidence,
    InvalidPrice,
    InvalidLeverage,
    InvalidCollateral,
    PositionAlreadyExists,
    PositionNotActive,
    PositionHealthy,
    InsufficientLiquidity,
    InsufficientShares,
    MathOverflow,
    MathUnderflow,
    InvalidAmount,
    InvalidMintAuthority,
    InvalidTreasury,
    InvalidOwner,
    InvalidLiquidationState,
}

} // verus!
