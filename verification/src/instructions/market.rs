//! Instructions on a market.

pub mod add_liquidity;
pub mod create_market;
pub mod resolution;
pub mod swap;
pub mod withdraw_liquidity;
