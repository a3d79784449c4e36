//! The records the engine keeps: configuration, markets, positions.

pub mod config;
pub mod global;
pub mod market;
pub mod model;
pub mod whitelist;
