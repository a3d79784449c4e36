//! Handing the administration over, first step: the nomination.

use vstd::prelude::*;
use crate::errors::PredictionMarketError;
use crate::pubkey::Pubkey;
use crate::state::config::Config;

verus! {

/// What a nomination reads and writes.
#[derive(Clone, Copy, Debug, PartialEq, Eq)]
pub struct NominateAuthority {
    /// Who nominates.
    pub admin: Pubkey,
    /// The configuration.
    pub global_config: Config,
}

impl NominateAuthority {
    /// Notes `new_admin` as the administrator-to-be.
    ///
    /// Only the administrator may nominate; for anyone else nothing
    /// changes.
    pub fn process(&mut self, new_admin: Pubkey) -> (out: Result<(), PredictionMarketError>)
        ensures
            out is Ok <==> old(self).admin == old(self).global_config.authority,
            out is Ok ==> *final(self) == (NominateAuthority {
                global_config: Config { pending_authority: new_admin, ..old(self).global_config },
                ..*old(self)
            }),
            out is Err ==> *final(self) == *old(self),
            out matches Err(e) ==> e == PredictionMarketError::IncorrectAuthority,
    {
        if self.admin != self.global_config.authority {
            return Err(PredictionMarketError::IncorrectAuthority);
        }
        self.global_config.pending_authority = new_admin;
        Ok(())
    }
}

} // verus!
