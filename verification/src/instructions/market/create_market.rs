//! Creating a market.

use vstd::prelude::*;
use crate::errors::PredictionMarketError;
use crate::events::CreateEvent;
use crate::pubkey::Pubkey;
use crate::state::config::Config;
use crate::state::market::{CreateMarketParams, LpInfo, Market};
use crate::state::model::MarketView;

verus! {

/// Why a market cannot be created at `current_slot`, if it cannot: its
/// first slot lies in the past; its last slot lies in the past or before
/// the first; or the configuration puts more tokens on a curve than it
/// mints.
pub open spec fn creation_error(
    config: Config,
    start_slot: Option<u64>,
    ending_slot: Option<u64>,
    current_slot: u64,
) -> Option<PredictionMarketError> {
    if start_slot matches Some(start) && start < current_slot {
        Some(PredictionMarketError::InvalidStartTime)
    } else if ending_slot matches Some(end) && end < current_slot {
        Some(PredictionMarketError::InvalidEndTime)
    } else if start_slot matches Some(start) && ending_slot matches Some(end) && end < start {
        Some(PredictionMarketError::InvalidEndTime)
    } else if config.initial_real_token_reserves_config > config.token_supply_config {
        Some(PredictionMarketError::InvalidAmount)
    } else {
        None
    }
}

/// A market as it is right after creation: both curves hold the configured
/// tokens and no collateral, nobody has provided liquidity, and trading is
/// open.
pub open spec fn created_market(
    creator: Pubkey,
    yes_token_mint: Pubkey,
    no_token_mint: Pubkey,
    config: Config,
    start_slot: Option<u64>,
    ending_slot: Option<u64>,
    virtual_sol_reserves: u64,
) -> MarketView {
    MarketView {
        yes_token_mint,
        no_token_mint,
        creator,
        initial_yes_token_reserves: config.token_supply_config,
        real_yes_token_reserves: config.initial_real_token_reserves_config,
        real_yes_sol_reserves: 0,
        token_yes_total_supply: config.token_supply_config,
        initial_no_token_reserves: config.token_supply_config,
        real_no_token_reserves: config.initial_real_token_reserves_config,
        real_no_sol_reserves: 0,
        token_no_total_supply: config.token_supply_config,
        virtual_sol_reserves,
        is_completed: false,
        start_slot,
        ending_slot,
        lps: Seq::<LpInfo>::empty(),
        total_lp_amount: 0,
    }
}

impl Market {
    /// Creates a market at `current_slot`.
    ///
    /// The slots of trading, where given, must not lie in the past, and the
    /// last must not lie before the first. The reserves come from the
    /// configuration, which must not put more tokens on a curve than it
    /// mints.
    pub fn create(
        creator: Pubkey,
        yes_token_mint: Pubkey,
        no_token_mint: Pubkey,
        config: &Config,
        params: &CreateMarketParams,
        current_slot: u64,
    ) -> (out: Result<Market, PredictionMarketError>)
        ensures
            match out {
                Ok(market) => {
                    &&& creation_error(
                        *config,
                        params.start_slot,
                        params.ending_slot,
                        current_slot,
                    ) is None
                    &&& market@ == created_market(
                        creator,
                        yes_token_mint,
                        no_token_mint,
                        *config,
                        params.start_slot,
                        params.ending_slot,
                        params.virtual_sol_reserves,
                    )
                    &&& market@.well_formed()
                },
                Err(e) => creation_error(
                    *config,
                    params.start_slot,
                    params.ending_slot,
                    current_slot,
                ) == Some(e),
            },
    {
        if let Some(start) = params.start_slot {
            if start < current_slot {
                return Err(PredictionMarketError::InvalidStartTime);
            }
        }
        if let Some(end) = params.ending_slot {
            if end < current_slot {
                return Err(PredictionMarketError::InvalidEndTime);
            }
            if let Some(start) = params.start_slot {
                if end < start {
                    return Err(PredictionMarketError::InvalidEndTime);
                }
            }
        }
        if config.initial_real_token_reserves_config > config.token_supply_config {
            return Err(PredictionMarketError::InvalidAmount);
        }
        let market = Market {
            yes_token_mint,
            no_token_mint,
            creator,
            initial_yes_token_reserves: config.token_supply_config,
            real_yes_token_reserves: config.initial_real_token_reserves_config,
            real_yes_sol_reserves: 0,
            token_yes_total_supply: config.token_supply_config,
            initial_no_token_reserves: config.token_supply_config,
            real_no_token_reserves: config.initial_real_token_reserves_config,
            real_no_sol_reserves: 0,
            token_no_total_supply: config.token_supply_config,
            virtual_sol_reserves: params.virtual_sol_reserves,
            is_completed: false,
            start_slot: params.start_slot,
            ending_slot: params.ending_slot,
            lps: Vec::new(),
            total_lp_amount: 0,
        };
        proof {
            assert(market@.lps =~= Seq::<LpInfo>::empty());
        }
        Ok(market)
    }
}

/// What the creation of a market reads and writes.
#[derive(Debug, PartialEq, Eq)]
pub struct CreateMarket {
    /// The configuration.
    pub global_config: Config,
    /// Who creates the market.
    pub creator: Pubkey,
    /// The YES token.
    pub yes_token: Pubkey,
    /// The NO token.
    pub no_token: Pubkey,
    /// The address of the market's record.
    pub market_key: Pubkey,
    /// The market's record, as it stands; creation overwrites it.
    pub market: Market,
    /// The metadata of the YES token.
    pub yes_token_metadata_account: Pubkey,
    /// The metadata of the NO token.
    pub no_token_metadata_account: Pubkey,
    /// The wallet offered as the team's.
    pub team_wallet: Pubkey,
}

impl CreateMarket {
    /// The event that reports the market of this instruction.
    pub open spec fn event(self, market: MarketView) -> CreateEvent {
        CreateEvent {
            creator: self.creator,
            market: self.market_key,
            token_yes: self.yes_token,
            metadata_yes: self.yes_token_metadata_account,
            token_yes_total_supply: market.token_yes_total_supply,
            real_yes_sol_reserves: market.real_yes_sol_reserves,
            token_no: self.no_token,
            metadata_no: self.no_token_metadata_account,
            token_no_total_supply: market.token_no_total_supply,
            real_no_sol_reserves: market.real_no_sol_reserves,
            start_slot: match market.start_slot {
                Some(slot) => slot,
                None => 0,
            },
            ending_slot: match market.ending_slot {
                Some(slot) => slot,
                None => 0,
            },
        }
    }

    /// Why the instruction fails at `current_slot`, if it does: the wallet
    /// offered is not the configured team wallet, or the market cannot be
    /// created.
    pub open spec fn error(self, params: CreateMarketParams, current_slot: u64) -> Option<
        PredictionMarketError,
    > {
        if self.global_config.team_wallet != self.team_wallet {
            Some(PredictionMarketError::IncorrectAuthority)
        } else {
            creation_error(self.global_config, params.start_slot, params.ending_slot, current_slot)
        }
    }

    /// Creates the market and reports it.
    ///
    /// On success the market's record is the newly created market and the
    /// event describes it; on failure nothing changes.
    pub fn handler(&mut self, params: &CreateMarketParams, current_slot: u64) -> (out: Result<
        CreateEvent,
        PredictionMarketError,
    >)
        ensures
            match out {
                Ok(event) => {
                    &&& old(self).error(*params, current_slot) is None
                    &&& final(self).market@ == created_market(
                        old(self).creator,
                        old(self).yes_token,
                        old(self).no_token,
                        old(self).global_config,
                        params.start_slot,
                        params.ending_slot,
                        params.virtual_sol_reserves,
                    )
                    &&& final(self).market@.well_formed()
                    &&& event == old(self).event(final(self).market@)
                },
                Err(e) => {
                    &&& old(self).error(*params, current_slot) == Some(e)
                    &&& final(self).market@ == old(self).market@
                },
            },
            final(self).global_config == old(self).global_config,
            final(self).creator == old(self).creator,
            final(self).yes_token == old(self).yes_token,
            final(self).no_token == old(self).no_token,
            final(self).market_key == old(self).market_key,
            final(self).yes_token_metadata_account == old(self).yes_token_metadata_account,
            final(self).no_token_metadata_account == old(self).no_token_metadata_account,
            final(self).team_wallet == old(self).team_wallet,
    {
        if self.global_config.team_wallet != self.team_wallet {
            return Err(PredictionMarketError::IncorrectAuthority);
        }
        let market = Market::create(
            self.creator,
            self.yes_token,
            self.no_token,
            &self.global_config,
            params,
            current_slot,
        )?;
        let event = CreateEvent {
            creator: self.creator,
            market: self.market_key,
            token_yes: self.yes_token,
            metadata_yes: self.yes_token_metadata_account,
            token_yes_total_supply: market.token_yes_total_supply,
            real_yes_sol_reserves: market.real_yes_sol_reserves,
            token_no: self.no_token,
            metadata_no: self.no_token_metadata_account,
            token_no_total_supply: market.token_no_total_supply,
            real_no_sol_reserves: market.real_no_sol_reserves,
            start_slot: match market.start_slot {
                Some(slot) => slot,
                None => 0,
            },
            ending_slot: match market.ending_slot {
                Some(slot) => slot,
                None => 0,
            },
        };
        self.market = market;
        Ok(event)
    }
}

} // verus!
