//! Providing liquidity to a market.

use vstd::prelude::*;
use crate::errors::PredictionMarketError;
use crate::pubkey::Pubkey;
use crate::state::config::Config;
use crate::state::market::{Market, MarketAccount, UserInfo};
use crate::state::model::LiquidityEffect;

verus! {

/// What a deposit of liquidity reads and writes.
#[derive(Debug, PartialEq, Eq)]
pub struct AddLiquidity {
    /// The configuration.
    pub global_config: Config,
    /// The wallet offered as the team's.
    pub team_wallet: Pubkey,
    /// The market.
    pub market: Market,
    /// The provider's record in the market.
    pub user_info: UserInfo,
    /// The provider.
    pub user: Pubkey,
}

impl AddLiquidity {
    /// What the deposit does to market and record, or why it fails:
    /// because the wallet offered is not the configured team wallet, or
    /// because the market refuses the deposit.
    pub open spec fn outcome(self, amount: u64) -> Result<LiquidityEffect, PredictionMarketError> {
        if self.global_config.team_wallet != self.team_wallet {
            Err(PredictionMarketError::IncorrectAuthority)
        } else {
            self.market@.add_liquidity(self.user, amount, self.user_info)
        }
    }

    /// Records a deposit of `amount`, which the caller has to collect from
    /// the provider.
    ///
    /// On success market and record are those of the outcome; on failure
    /// nothing changes.
    pub fn handler(&mut self, amount: u64) -> (out: Result<(), PredictionMarketError>)
        ensures
            match out {
                Ok(()) => old(self).outcome(amount) == Ok::<LiquidityEffect, PredictionMarketError>(
                    LiquidityEffect { market: final(self).market@, user: final(self).user_info },
                ),
                Err(e) => {
                    &&& old(self).outcome(amount) == Err::<LiquidityEffect, PredictionMarketError>(
                        e,
                    )
                    &&& final(self).market@ == old(self).market@
                    &&& final(self).user_info == old(self).user_info
                },
            },
            old(self).market@.ledger_balanced() ==> final(self).market@.ledger_balanced(),
            old(self).market@.well_formed() ==> final(self).market@.well_formed(),
            final(self).global_config == old(self).global_config,
            final(self).team_wallet == old(self).team_wallet,
            final(self).user == old(self).user,
    {
        if self.global_config.team_wallet != self.team_wallet {
            return Err(PredictionMarketError::IncorrectAuthority);
        }
        self.market.add_liquidity(&self.user, amount, &mut self.user_info)
    }
}

} // verus!
