//! Writing the configuration.

use vstd::prelude::*;
use crate::errors::PredictionMarketError;
use crate::pubkey::Pubkey;
use crate::state::config::Config;

verus! {

/// The number of bytes by which a stored record names its kind.
pub const DISCRIMINATOR_LEN: usize = 8;

/// What a vault that holds nothing is given, so that it may exist.
pub const VAULT_SEED_LAMPORTS: u64 = 1_000_000;

/// What writing the configuration reads.
#[derive(Debug, PartialEq, Eq)]
pub struct Configure {
    /// Who pays and, for a configuration that exists, must be its
    /// administrator.
    pub payer: Pubkey,
    /// Whether the program owns the configuration account already.
    pub config_is_owned: bool,
    /// The bytes the configuration account holds.
    pub config_data: Vec<u8>,
    /// The configuration those bytes decode to, where they decode.
    pub stored_config: Option<Config>,
    /// The balance of the configuration account.
    pub config_lamports: u64,
    /// The balance of the vault.
    pub global_vault_lamports: u64,
}

/// What the caller has to do to write the configuration.
#[derive(Clone, Copy, Debug, PartialEq, Eq, Structural)]
pub struct ConfigurePlan {
    /// Whether the configuration account has to be created, with the
    /// balance that its size costs.
    pub create_account: bool,
    /// What has to be added to the account's balance before it is grown to
    /// its new size; zero where neither is needed.
    pub top_up: u64,
    /// Whether the account has to be grown to the new size.
    pub resize: bool,
    /// What has to be paid into the vault; zero where it holds something.
    pub vault_funding: u64,
}

/// Whether `data` begins with the eight bytes of `discriminator`.
pub open spec fn has_discriminator(data: Seq<u8>, discriminator: Seq<u8>) -> bool {
    &&& discriminator.len() == DISCRIMINATOR_LEN
    &&& data.len() >= DISCRIMINATOR_LEN
    &&& data.subrange(0, DISCRIMINATOR_LEN as int) == discriminator
}

/// Checks that `data` begins with the eight bytes of `discriminator`.
pub fn check_discriminator(data: &[u8], discriminator: &[u8]) -> (tagged: bool)
    ensures
        tagged == has_discriminator(data@, discriminator@),
{
    if discriminator.len() != DISCRIMINATOR_LEN || data.len() < DISCRIMINATOR_LEN {
        return false;
    }
    let mut i: usize = 0;
    while i < DISCRIMINATOR_LEN
        invariant
            i <= DISCRIMINATOR_LEN,
            discriminator@.len() == DISCRIMINATOR_LEN,
            data@.len() >= DISCRIMINATOR_LEN,
            forall|j: int| 0 <= j < i ==> data@[j] == discriminator@[j],
        decreases DISCRIMINATOR_LEN - i,
    {
        if data[i] != discriminator[i] {
            proof {
                assert(data@.subrange(0, DISCRIMINATOR_LEN as int)[i as int] == data@[i as int]);
            }
            return false;
        }
        i += 1;
    }
    proof {
        assert(data@.subrange(0, DISCRIMINATOR_LEN as int) =~= discriminator@);
    }
    true
}

impl Configure {
    /// Why the configuration may not be written, if it may not: the new
    /// settings are not valid; or the account, which the program owns, does
    /// not hold a configuration; or the payer is not the administrator of
    /// the configuration it holds.
    pub open spec fn error(self, new_config: Config, discriminator: Seq<u8>) -> Option<
        PredictionMarketError,
    > {
        if new_config.validation_error() is Some {
            new_config.validation_error()
        } else if !self.config_is_owned {
            None
        } else if !has_discriminator(self.config_data@, discriminator) {
            Some(PredictionMarketError::IncorrectConfigAccount)
        } else {
            match self.stored_config {
                None => Some(PredictionMarketError::IncorrectConfigAccount),
                Some(stored) => if stored.authority != self.payer {
                    Some(PredictionMarketError::IncorrectAuthority)
                } else {
                    None
                },
            }
        }
    }

    /// What there is to do where the configuration may be written and its
    /// size costs `config_cost`: an account the program does not own yet
    /// is created; one that exists and holds less than the cost is topped
    /// up to it and grown; an empty vault is funded.
    pub open spec fn plan(self, config_cost: u64) -> ConfigurePlan {
        let short = self.config_is_owned && config_cost > self.config_lamports;
        ConfigurePlan {
            create_account: !self.config_is_owned,
            top_up: if short {
                (config_cost - self.config_lamports) as u64
            } else {
                0
            },
            resize: short,
            vault_funding: if self.global_vault_lamports == 0 {
                VAULT_SEED_LAMPORTS
            } else {
                0
            },
        }
    }

    /// Decides whether `new_config` may be written and what the caller has
    /// to do for it.
    ///
    /// `discriminator` is the tag of a stored configuration and
    /// `config_cost` the balance that an account of the new
    /// configuration's size must hold.
    pub fn handler(&self, new_config: &Config, discriminator: &[u8], config_cost: u64) -> (out:
        Result<ConfigurePlan, PredictionMarketError>)
        ensures
            out == (match self.error(*new_config, discriminator@) {
                Some(e) => Err::<ConfigurePlan, PredictionMarketError>(e),
                None => Ok::<ConfigurePlan, PredictionMarketError>(self.plan(config_cost)),
            }),
    {
        match new_config.validate() {
            Ok(()) => {},
            Err(e) => {
                return Err(e);
            },
        }
        let mut top_up: u64 = 0;
        let mut resize: bool = false;
        if self.config_is_owned {
            if !check_discriminator(self.config_data.as_slice(), discriminator) {
                return Err(PredictionMarketError::IncorrectConfigAccount);
            }
            match self.stored_config {
                None => {
                    return Err(PredictionMarketError::IncorrectConfigAccount);
                },
                Some(stored) => {
                    if stored.authority != self.payer {
                        return Err(PredictionMarketError::IncorrectAuthority);
                    }
                },
            }
            if config_cost > self.config_lamports {
                top_up = config_cost - self.config_lamports;
                resize = true;
            }
        }
        let vault_funding: u64 = if self.global_vault_lamports == 0 {
            VAULT_SEED_LAMPORTS
        } else {
            0
        };
        Ok(ConfigurePlan { create_account: !self.config_is_owned, top_up, resize, vault_funding })
    }
}

} // verus!
