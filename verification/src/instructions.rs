//! The operations of the engine, one module each.
pub mod add_liquidity;
pub mod create_pair;
pub mod initialize_platform;
pub mod pause_platform;
pub mod remove_liquidity;
pub mod resume_platform;
pub mod swap;
pub mod update_fee_rate;
pub mod withdraw_platform_fees;
