//! What the program publishes about its operations.

use vstd::prelude::*;
use crate::pubkey::Pubkey;

verus! {

/// The global settings were changed.
#[derive(Clone, Copy, Debug, PartialEq, Eq)]
pub struct GlobalUpdateEvent {
    /// The global authority.
    pub global_authority: Pubkey,
    /// Tokens a new market puts on its curves.
    pub initial_real_token_reserves: u64,
    /// Tokens a new market mints of each outcome.
    pub token_total_supply: u64,
    /// Decimals of the outcome tokens.
    pub mint_decimals: u8,
}

/// A market was created.
#[derive(Clone, Copy, Debug, PartialEq, Eq)]
pub struct CreateEvent {
    /// Who created the market.
    pub creator: Pubkey,
    /// The market.
    pub market: Pubkey,
    /// The YES token.
    pub token_yes: Pubkey,
    /// The metadata of the YES token.
    pub metadata_yes: Pubkey,
    /// YES tokens minted.
    pub token_yes_total_supply: u64,
    /// Collateral held against YES.
    pub real_yes_sol_reserves: u64,
    /// The NO token.
    pub token_no: Pubkey,
    /// The metadata of the NO token.
    pub metadata_no: Pubkey,
    /// NO tokens minted.
    pub token_no_total_supply: u64,
    /// Collateral held against NO.
    pub real_no_sol_reserves: u64,
    /// First slot of trading, zero where the market has none.
    pub start_slot: u64,
    /// Last slot of trading, zero where the market has none.
    pub ending_slot: u64,
}

/// Fees were withdrawn from a vault.
#[derive(Clone, Copy, Debug, PartialEq, Eq)]
pub struct WithdrawEvent {
    /// Who authorised the withdrawal.
    pub withdraw_authority: Pubkey,
    /// The token.
    pub mint: Pubkey,
    /// The vault.
    pub fee_vault: Pubkey,
    /// The amount withdrawn this time.
    pub withdrawn: u64,
    /// The amount withdrawn so far.
    pub total_withdrawn: u64,
    /// When, in seconds since the epoch.
    pub withdraw_time: i64,
}

/// A user traded.
#[derive(Clone, Copy, Debug, PartialEq, Eq)]
pub struct TradeEvent {
    /// The trader.
    pub user: Pubkey,
    /// The YES token.
    pub token_yes: Pubkey,
    /// The NO token.
    pub token_no: Pubkey,
    /// The market.
    pub market_info: Pubkey,
    /// Collateral traded.
    pub sol_amount: u64,
    /// Tokens traded.
    pub token_amount: u64,
    /// Fees paid.
    pub fee_lamports: u64,
    /// Whether the trade was a buy.
    pub is_buy: bool,
    /// Whether YES tokens were traded.
    pub is_yes_no: bool,
    /// Collateral held against the traded outcome afterwards.
    pub real_sol_reserves: u64,
    /// YES tokens in the pool afterwards.
    pub real_token_yes_reserves: u64,
    /// NO tokens in the pool afterwards.
    pub real_token_no_reserves: u64,
    /// When, in seconds since the epoch.
    pub timestamp: i64,
}

/// A market was completed.
#[derive(Clone, Copy, Debug, PartialEq, Eq)]
pub struct CompleteEvent {
    /// Who completed it.
    pub user: Pubkey,
    /// The token.
    pub mint: Pubkey,
    /// The virtual collateral of the curve.
    pub virtual_sol_reserves: u64,
    /// The virtual tokens of the curve.
    pub virtual_token_reserves: u64,
    /// Collateral really held.
    pub real_sol_reserves: u64,
    /// Tokens really held.
    pub real_token_reserves: u64,
    /// When, in seconds since the epoch.
    pub timestamp: i64,
}

/// A record that can report itself as an event of type `T`.
pub trait IntoEvent<T> {
    /// The event that describes the record as it is now.
    fn into_event(&self) -> T;
}

} // verus!
