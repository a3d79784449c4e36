//! Paying out the holders of the winning outcome.

use vstd::prelude::*;
use crate::errors::PredictionMarketError;
use crate::pubkey::Pubkey;
use crate::state::config::Config;
use crate::state::market::{Market, MarketAccount, UserInfo};
use crate::state::model::{MarketView, ResolutionEffect};

verus! {

/// A redemption ordered by `authority` for the holder with record `info`.
///
/// Only the configured administrator may order one. The market pays the
/// holder out, and is completed for good where `is_final_call` says so.
pub open spec fn resolve(
    market: MarketView,
    config: Config,
    authority: Pubkey,
    info: UserInfo,
    token_type: u8,
    is_final_call: bool,
) -> Result<ResolutionEffect, PredictionMarketError> {
    if authority != config.authority {
        Err(PredictionMarketError::IncorrectAuthority)
    } else {
        match market.resolution(info, token_type) {
            Err(e) => Err(e),
            Ok(paid) => Ok(
                ResolutionEffect {
                    market: MarketView { is_completed: is_final_call, ..paid.market },
                    user: paid.user,
                    payout: paid.payout,
                },
            ),
        }
    }
}

/// No holder is paid twice: where two redemptions for the same holder and
/// outcome both succeed, one right after the other, the second pays zero.
pub proof fn law_second_resolve_pays_nothing(
    market: MarketView,
    config: Config,
    authority: Pubkey,
    info: UserInfo,
    token_type: u8,
    is_final_call: bool,
    next_config: Config,
    next_authority: Pubkey,
    next_is_final_call: bool,
)
    requires
        resolve(market, config, authority, info, token_type, is_final_call) is Ok,
        resolve(
            resolve(market, config, authority, info, token_type, is_final_call)->Ok_0.market,
            next_config,
            next_authority,
            resolve(market, config, authority, info, token_type, is_final_call)->Ok_0.user,
            token_type,
            next_is_final_call,
        ) is Ok,
    ensures
        resolve(
            resolve(market, config, authority, info, token_type, is_final_call)->Ok_0.market,
            next_config,
            next_authority,
            resolve(market, config, authority, info, token_type, is_final_call)->Ok_0.user,
            token_type,
            next_is_final_call,
        )->Ok_0.payout == 0,
{
    let first = resolve(market, config, authority, info, token_type, is_final_call)->Ok_0;
    let supply = first.market.total_supply(token_type) as int;
    let held = first.market.real_sol(token_type) as int;
    assert(first.user.balance(token_type) == 0);
    assert((0 * held) / supply == 0) by (nonlinear_arith)
        requires
            supply > 0,
    ;
}

/// After the final call nothing more is paid: every later redemption
/// fails.
pub proof fn law_no_resolve_after_final_call(
    market: MarketView,
    config: Config,
    authority: Pubkey,
    info: UserInfo,
    token_type: u8,
    next_config: Config,
    next_authority: Pubkey,
    next_info: UserInfo,
    next_token_type: u8,
    next_is_final_call: bool,
)
    requires
        resolve(market, config, authority, info, token_type, true) is Ok,
    ensures
        resolve(
            resolve(market, config, authority, info, token_type, true)->Ok_0.market,
            next_config,
            next_authority,
            next_info,
            next_token_type,
            next_is_final_call,
        ) is Err,
{
}

/// What a redemption reads and writes.
#[derive(Debug, PartialEq, Eq)]
pub struct Resolution {
    /// The configuration.
    pub global_config: Config,
    /// The market.
    pub market: Market,
    /// The holder's record in the market.
    pub user_info: UserInfo,
    /// The holder.
    pub user: Pubkey,
    /// Who orders the redemption.
    pub authority: Pubkey,
}

impl Resolution {
    /// Pays the holder out for the winning outcome `token_type`, and
    /// completes the market where `is_completed` says so.
    ///
    /// In this order: the caller must be the configured administrator; the
    /// market must not have been completed; the outcome must be YES (0) or
    /// NO (1); the payout must be computable and the pool must hold it.
    /// On success the payout, which the caller has to transfer, has left
    /// the pool and the holder's balance of the outcome is zero; on
    /// failure nothing changes.
    pub fn handler(&mut self, token_type: u8, is_completed: bool) -> (out: Result<
        u64,
        PredictionMarketError,
    >)
        ensures
            match out {
                Ok(payout) => resolve(
                    old(self).market@,
                    old(self).global_config,
                    old(self).authority,
                    old(self).user_info,
                    token_type,
                    is_completed,
                ) == Ok::<ResolutionEffect, PredictionMarketError>(
                    ResolutionEffect {
                        market: final(self).market@,
                        user: final(self).user_info,
                        payout,
                    },
                ),
                Err(e) => {
                    &&& resolve(
                        old(self).market@,
                        old(self).global_config,
                        old(self).authority,
                        old(self).user_info,
                        token_type,
                        is_completed,
                    ) == Err::<ResolutionEffect, PredictionMarketError>(e)
                    &&& final(self).market@ == old(self).market@
                    &&& final(self).user_info == old(self).user_info
                },
            },
            out is Ok ==> final(self).user_info.balance(token_type) == 0,
            old(self).market@.well_formed() ==> final(self).market@.well_formed(),
            final(self).global_config == old(self).global_config,
            final(self).user == old(self).user,
            final(self).authority == old(self).authority,
    {
        if self.authority != self.global_config.authority {
            return Err(PredictionMarketError::IncorrectAuthority);
        }
        let payout: u64 = self.market.resolution(&mut self.user_info, token_type)?;
        if is_completed {
            self.market.is_completed = true;
        }
        Ok(payout)
    }
}

} // verus!
