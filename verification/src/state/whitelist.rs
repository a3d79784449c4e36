//! Who may create markets.

use vstd::prelude::*;
use crate::pubkey::Pubkey;

verus! {

/// Seed of a whitelist record's address.
pub const WHITELIST_SEED_PREFIX: &'static str = "wl-seed";

/// The record of one creator who may create markets.
#[derive(Clone, Copy, Debug, PartialEq, Eq)]
pub struct Whitelist {
    /// The creator.
    pub creator: Pubkey,
}

impl Default for Whitelist {
    /// A record that names nobody.
    fn default() -> (record: Whitelist)
        ensures
            record.creator.is_default(),
    {
        Whitelist { creator: Pubkey::default() }
    }
}

} // verus!
