//! Accounting and pricing core of a binary-outcome prediction market.
//!
//! Two complementary positions, YES and NO, trade against pooled
//! collateral; liquidity providers fund the pools; and a resolution pays
//! the holders of the winning side and closes the market.
//!
//! * [`utils`] splits fees in basis points.
//! * [`curve`] prices one outcome on a constant-product curve.
//! * [`state`] holds the records (configuration, markets, positions) and
//!   the operations on a market; `state::model` is the mathematical
//!   description that their contracts refer to.
//! * [`instructions`] decides each instruction of the program on plain
//!   values.
//! * [`laws`] states and proves what holds across calls.
//!
//! Nothing here moves collateral or tokens or reads a clock: every
//! operation takes what it needs as plain values and returns what the
//! caller has to move. An operation that fails changes nothing.

pub mod constants;
pub mod curve;
pub mod errors;
pub mod events;
pub mod instructions;
pub mod laws;
pub mod pubkey;
pub mod state;
pub mod utils;
