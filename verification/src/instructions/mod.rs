pub mod add_liquidity;
pub mod close_position;
pub mod create_market;
pub mod initialize;
pub mod open_position;
pub mod pause_market;
pub mod remove_liquidity;
pub mod update_market;
