//! Trading against a market.

use vstd::prelude::*;
use crate::errors::PredictionMarketError;
use crate::pubkey::Pubkey;
use crate::state::config::Config;
use crate::state::market::{Market, MarketAccount, SwapReceipt, UserInfo};
use crate::state::model::SwapEffect;

verus! {

/// What a swap reads and writes.
#[derive(Debug, PartialEq, Eq)]
pub struct Swap {
    /// The configuration.
    pub global_config: Config,
    /// The wallet offered as the team's.
    pub team_wallet: Pubkey,
    /// The market.
    pub market: Market,
    /// The trader's record in the market.
    pub user_info: UserInfo,
    /// The trader.
    pub user: Pubkey,
}

impl Swap {
    /// What the swap does to market and record, or why it fails: because
    /// the wallet offered is not the configured team wallet, or because the
    /// market refuses the swap.
    pub open spec fn outcome(
        self,
        amount: u64,
        direction: u8,
        token_type: u8,
        minimum_receive_amount: u64,
        current_slot: u64,
    ) -> Result<SwapEffect, PredictionMarketError> {
        if self.global_config.team_wallet != self.team_wallet {
            Err(PredictionMarketError::IncorrectAuthority)
        } else {
            self.market@.swap(
                self.global_config,
                amount,
                direction,
                token_type,
                minimum_receive_amount,
                self.user,
                self.user_info,
                current_slot,
            )
        }
    }

    /// Carries out the swap at `current_slot`, as a whole or not at all.
    ///
    /// On success market and record are those of the outcome and the
    /// receipt says what the caller has to move; on failure nothing
    /// changes.
    pub fn handler(
        &mut self,
        amount: u64,
        direction: u8,
        token_type: u8,
        minimum_receive_amount: u64,
        current_slot: u64,
    ) -> (out: Result<SwapReceipt, PredictionMarketError>)
        ensures
            match out {
                Ok(receipt) => old(self).outcome(
                    amount,
                    direction,
                    token_type,
                    minimum_receive_amount,
                    current_slot,
                ) == Ok::<SwapEffect, PredictionMarketError>(
                    SwapEffect {
                        market: final(self).market@,
                        user: final(self).user_info,
                        receipt,
                    },
                ),
                Err(e) => {
                    &&& old(self).outcome(
                        amount,
                        direction,
                        token_type,
                        minimum_receive_amount,
                        current_slot,
                    ) == Err::<SwapEffect, PredictionMarketError>(e)
                    &&& final(self).market@ == old(self).market@
                    &&& final(self).user_info == old(self).user_info
                },
            },
            out matches Ok(receipt) ==> receipt.received() >= minimum_receive_amount,
            out is Ok ==> final(self).market@.product(0) <= old(self).market@.product(0),
            out is Ok ==> final(self).market@.product(1) <= old(self).market@.product(1),
            old(self).market@.well_formed() ==> final(self).market@.well_formed(),
            final(self).global_config == old(self).global_config,
            final(self).team_wallet == old(self).team_wallet,
            final(self).user == old(self).user,
    {
        if self.global_config.team_wallet != self.team_wallet {
            return Err(PredictionMarketError::IncorrectAuthority);
        }
        self.market.swap(
            &self.global_config,
            amount,
            direction,
            token_type,
            minimum_receive_amount,
            &self.user,
            &mut self.user_info,
            current_slot,
        )
    }
}

} // verus!
