//! Fixed names and limits of the market program.

use vstd::prelude::*;

verus! {

/// Seed of the configuration account's address.
pub const CONFIG: &'static str = "config";

/// Seed of the collateral vault's address.
pub const GLOBAL: &'static str = "global";

/// Seed of a market account's address.
pub const MARKET: &'static str = "market";

/// Seed of a per-user record's address.
pub const USERINFO: &'static str = "userinfo";

/// Seed of a token metadata account's address.
pub const METADATA: &'static str = "metadata";

/// Display name of the YES position token.
pub const YES_NAME: &'static str = "agree";

/// Display name of the NO position token.
pub const NO_NAME: &'static str = "disagree";

/// Longest admissible delay of a market's start, in slots (about a week at
/// 400 ms per slot).
pub const MAX_START_SLOT_DELAY: u64 = 1_512_000;

/// The number of basis points in a whole.
pub const BPS_DENOMINATOR: u64 = 10_000;

/// Selector of the YES outcome.
pub const TOKEN_TYPE_YES: u8 = 0;

/// Selector of the NO outcome.
pub const TOKEN_TYPE_NO: u8 = 1;

/// Selector of the buying direction; every other value sells.
pub const DIRECTION_BUY: u8 = 0;

} // verus!
