//! Taking liquidity back out of a market.

use vstd::prelude::*;
use crate::errors::PredictionMarketError;
use crate::pubkey::Pubkey;
use crate::state::config::Config;
use crate::state::market::{Market, MarketAccount};
use crate::state::model::MarketView;

verus! {

/// What a withdrawal of liquidity reads and writes.
#[derive(Debug, PartialEq, Eq)]
pub struct WithdrawLiquidity {
    /// The configuration.
    pub global_config: Config,
    /// The wallet offered as the team's.
    pub team_wallet: Pubkey,
    /// The market.
    pub market: Market,
    /// The provider.
    pub user: Pubkey,
}

impl WithdrawLiquidity {
    /// The market after the withdrawal, or why it fails: because the
    /// wallet offered is not the configured team wallet, or because the
    /// market refuses the withdrawal.
    pub open spec fn outcome(self, amount: u64) -> Result<MarketView, PredictionMarketError> {
        if self.global_config.team_wallet != self.team_wallet {
            Err(PredictionMarketError::IncorrectAuthority)
        } else {
            self.market@.withdraw_liquidity(self.user, amount)
        }
    }

    /// Records a withdrawal of `amount`, which the caller has to transfer
    /// to the provider.
    ///
    /// On success the market is that of the outcome; on failure nothing
    /// changes.
    pub fn handler(&mut self, amount: u64) -> (out: Result<(), PredictionMarketError>)
        ensures
            match out {
                Ok(()) => old(self).outcome(amount) == Ok::<MarketView, PredictionMarketError>(
                    final(self).market@,
                ),
                Err(e) => {
                    &&& old(self).outcome(amount) == Err::<MarketView, PredictionMarketError>(e)
                    &&& final(self).market@ == old(self).market@
                },
            },
            old(self).market@.ledger_balanced() ==> final(self).market@.ledger_balanced(),
            old(self).market@.well_formed() ==> final(self).market@.well_formed(),
            final(self).global_config == old(self).global_config,
            final(self).team_wallet == old(self).team_wallet,
            final(self).user == old(self).user,
    {
        if self.global_config.team_wallet != self.team_wallet {
            return Err(PredictionMarketError::IncorrectAuthority);
        }
        self.market.withdraw_liquidity(&self.user, amount)
    }
}

} // verus!
