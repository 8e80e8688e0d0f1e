//! Verified core of a perpetual-futures protocol: oracle price checks,
//! fee / PnL / margin arithmetic, liquidity-pool share accounting, the
//! per-instruction state transitions and the instruction wire format.

pub mod constants;
pub mod error;
pub mod instruction;
pub mod instructions;
pub mod laws;
pub mod math;
pub mod state;
pub mod wire;

pub use instruction::PerpsInstruction;
pub use instructions::add_liquidity::AddLiquidity;
pub use instructions::close_position::ClosePosition;
pub use instructions::create_market::CreateMarket;
pub use instructions::initialize::Initialize;
pub use instructions::open_position::OpenPosition;
pub use instructions::pause_market::PauseMarket;
pub use instructions::remove_liquidity::RemoveLiquidity;
pub use instructions::update_market::UpdateMarket;
pub use state::{Address, GlobalState, LiquidityPool, Market, Position, Side, Treasury};
