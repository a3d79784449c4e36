//! Platform-wide settings and who may change them.

use vstd::prelude::*;
use vstd::string::StringSliceAdditionalSpecFns;
use crate::errors::PredictionMarketError;
use crate::events::{GlobalUpdateEvent, IntoEvent};
use crate::pubkey::{lemma_default_is_unique, Pubkey};

verus! {

/// Seed of the global record's address.
pub const GLOBAL_SEED_PREFIX: &'static str = "globalconfig";

/// Most decimals an outcome token may have.
pub const MAX_MINT_DECIMALS: u8 = 9;

/// Largest admissible token supply: half of what 64 bits hold.
pub const MAX_TOKEN_TOTAL_SUPPLY: u64 = 0x7fff_ffff_ffff_ffff;

/// The bits of the 64-bit floating-point number 1.0.
pub const ONE_PERCENT_BITS: u64 = 0x3ff0_0000_0000_0000;

/// A change of the global authority.
#[derive(Clone, Copy, Debug, PartialEq, Eq)]
pub struct GlobalAuthorityInput {
    /// The new authority; `None` keeps the present one.
    pub global_authority: Option<Pubkey>,
}

/// The platform-wide settings.
#[derive(Clone, Copy, Debug, PartialEq, Eq)]
pub struct Global {
    /// Whether the record has been set up.
    pub initialized: bool,
    /// Who may change the settings.
    pub global_authority: Pubkey,
    /// Where the platform's fees go.
    pub team_wallet: Pubkey,
    /// The platform's fee on a buy, in percent: the bits of a 64-bit
    /// floating-point number, which the engine stores and never computes
    /// with.
    pub platform_buy_fee_bits: u64,
    /// The platform's fee on a sell, in percent, likewise.
    pub platform_sell_fee_bits: u64,
    /// Tokens a new market puts on its curves.
    pub initial_real_token_reserves: u64,
    /// Tokens a new market mints of each outcome.
    pub token_total_supply: u64,
    /// Decimals of the outcome tokens.
    pub mint_decimals: u8,
    /// The slot of the last change.
    pub last_updated_slot: u64,
}

/// New values for the settings that can be changed.
#[derive(Clone, Copy, Debug, PartialEq, Eq)]
pub struct GlobalSettingsInput {
    /// Tokens a new market puts on its curves.
    pub initial_real_token_reserves: u64,
    /// Tokens a new market mints of each outcome.
    pub token_total_supply: u64,
    /// Decimals of the outcome tokens.
    pub mint_decimals: u8,
    /// Where the platform's fees go.
    pub team_wallet: Pubkey,
}

impl GlobalSettingsInput {
    /// Whether the settings are admissible: at most nine decimals; a
    /// supply of at most half of what 64 bits hold; a team wallet that is
    /// an address; initial reserves that are positive and below the supply.
    pub open spec fn acceptable(self) -> bool {
        &&& self.mint_decimals <= MAX_MINT_DECIMALS
        &&& self.token_total_supply <= MAX_TOKEN_TOTAL_SUPPLY
        &&& !self.team_wallet.is_default()
        &&& self.initial_real_token_reserves > 0
        &&& self.token_total_supply > self.initial_real_token_reserves
    }
}

impl Default for Global {
    /// The settings before anyone has changed them: one percent of fees
    /// each way, 10^15 tokens minted and on the curves, six decimals, and
    /// nobody as authority or team.
    fn default() -> (global: Global)
        ensures
            global.initialized,
            global.global_authority.is_default(),
            global.team_wallet.is_default(),
            global.platform_buy_fee_bits == ONE_PERCENT_BITS,
            global.platform_sell_fee_bits == ONE_PERCENT_BITS,
            global.initial_real_token_reserves == 1_000_000_000_000_000,
            global.token_total_supply == 1_000_000_000_000_000,
            global.mint_decimals == 6,
            global.last_updated_slot == 0,
    {
        Global {
            initialized: true,
            global_authority: Pubkey::default(),
            team_wallet: Pubkey::default(),
            platform_buy_fee_bits: ONE_PERCENT_BITS,
            platform_sell_fee_bits: ONE_PERCENT_BITS,
            initial_real_token_reserves: 1_000_000_000_000_000,
            token_total_supply: 1_000_000_000_000_000,
            mint_decimals: 6,
            last_updated_slot: 0,
        }
    }
}

/// `core::slice::from_ref`, which views one value as a slice of length
/// one without copying it. The contract says that much: the slice holds
/// exactly the value referred to.
pub assume_specification<T>[ core::slice::from_ref::<T> ](value: &T) -> (out: &[T])
    ensures
        out@ == seq![*value],
;

impl Global {
    /// The seeds that sign for the global record: the prefix's bytes, then
    /// the bump.
    pub fn get_signer<'a>(bump: &'a u8) -> (seeds: [&'a [u8]; 2])
        ensures
            seeds[0]@ == GLOBAL_SEED_PREFIX.spec_bytes(),
            seeds[1]@ == seq![*bump],
    {
        let prefix_bytes: &'a [u8] = GLOBAL_SEED_PREFIX.as_bytes();
        let bump_slice: &'a [u8] = core::slice::from_ref(bump);
        [prefix_bytes, bump_slice]
    }

    /// The settings with `params` taken over at `slot`.
    pub open spec fn with_settings(self, params: GlobalSettingsInput, slot: u64) -> Global {
        Global {
            mint_decimals: params.mint_decimals,
            initial_real_token_reserves: params.initial_real_token_reserves,
            token_total_supply: params.token_total_supply,
            team_wallet: params.team_wallet,
            last_updated_slot: slot,
            ..self
        }
    }

    /// Checks new settings; what is not admissible is an invalid
    /// parameter.
    pub fn validate_settings(&self, params: &GlobalSettingsInput) -> (out: Result<
        (),
        PredictionMarketError,
    >)
        ensures
            out is Ok <==> params.acceptable(),
            out matches Err(e) ==> e == PredictionMarketError::InvalidParameter,
    {
        if params.mint_decimals > MAX_MINT_DECIMALS {
            return Err(PredictionMarketError::InvalidParameter);
        }
        if params.token_total_supply > MAX_TOKEN_TOTAL_SUPPLY {
            return Err(PredictionMarketError::InvalidParameter);
        }
        let nobody: Pubkey = Pubkey::default();
        proof {
            if params.team_wallet.is_default() {
                lemma_default_is_unique(params.team_wallet, nobody);
            }
        }
        if params.team_wallet == nobody {
            return Err(PredictionMarketError::InvalidParameter);
        }
        if params.initial_real_token_reserves == 0 {
            return Err(PredictionMarketError::InvalidParameter);
        }
        if params.token_total_supply <= params.initial_real_token_reserves {
            return Err(PredictionMarketError::InvalidParameter);
        }
        Ok(())
    }

    /// Takes over new settings and notes the slot of the change.
    pub fn update_settings(&mut self, params: GlobalSettingsInput, slot: u64)
        ensures
            *final(self) == old(self).with_settings(params, slot),
    {
        self.mint_decimals = params.mint_decimals;
        self.initial_real_token_reserves = params.initial_real_token_reserves;
        self.token_total_supply = params.token_total_supply;
        self.team_wallet = params.team_wallet;
        self.last_updated_slot = slot;
    }

    /// Hands the authority over where `params` names a new one.
    pub fn update_authority(&mut self, params: GlobalAuthorityInput)
        ensures
            *final(self) == (match params.global_authority {
                Some(authority) => Global { global_authority: authority, ..*old(self) },
                None => *old(self),
            }),
    {
        if let Some(authority) = params.global_authority {
            self.global_authority = authority;
        }
    }

    /// Whether the settings were last changed at or before the slot of the
    /// cluster's last restart, and so have to be renewed.
    pub fn is_config_outdated(&self, last_restart_slot: u64) -> (outdated: bool)
        ensures
            outdated == (self.last_updated_slot <= last_restart_slot),
    {
        self.last_updated_slot <= last_restart_slot
    }
}

impl IntoEvent<GlobalUpdateEvent> for Global {
    /// Reports authority and token settings as they stand.
    fn into_event(&self) -> (event: GlobalUpdateEvent)
        ensures
            event.global_authority == self.global_authority,
            event.initial_real_token_reserves == self.initial_real_token_reserves,
            event.token_total_supply == self.token_total_supply,
            event.mint_decimals == self.mint_decimals,
    {
        GlobalUpdateEvent {
            global_authority: self.global_authority,
            initial_real_token_reserves: self.initial_real_token_reserves,
            token_total_supply: self.token_total_supply,
            mint_decimals: self.mint_decimals,
        }
    }
}

} // verus!
