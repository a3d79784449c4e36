//! Handing the administration over, second step: the acceptance.

use vstd::prelude::*;
use crate::errors::PredictionMarketError;
use crate::pubkey::Pubkey;
use crate::state::config::Config;

verus! {

/// What an acceptance reads and writes.
#[derive(Clone, Copy, Debug, PartialEq, Eq)]
pub struct AcceptAuthority {
    /// Who accepts.
    pub new_admin: Pubkey,
    /// The configuration.
    pub global_config: Config,
}

impl AcceptAuthority {
    /// Makes the nominee the administrator and clears the nomination.
    ///
    /// Only the nominee may accept; for anyone else nothing changes.
    pub fn process(&mut self) -> (out: Result<(), PredictionMarketError>)
        ensures
            out is Ok <==> old(self).new_admin == old(self).global_config.pending_authority,
            out is Ok ==> final(self).global_config.authority == old(self).new_admin,
            out is Ok ==> final(self).global_config.pending_authority.is_default(),
            out is Ok ==> *final(self) == (AcceptAuthority {
                global_config: Config {
                    authority: old(self).new_admin,
                    pending_authority: final(self).global_config.pending_authority,
                    ..old(self).global_config
                },
                ..*old(self)
            }),
            out is Err ==> *final(self) == *old(self),
            out matches Err(e) ==> e == PredictionMarketError::IncorrectAuthority,
    {
        if self.global_config.pending_authority != self.new_admin {
            return Err(PredictionMarketError::IncorrectAuthority);
        }
        self.global_config.authority = self.new_admin;
        self.global_config.pending_authority = Pubkey::default();
        Ok(())
    }
}

} // verus!
