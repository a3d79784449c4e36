//! A market's reserves, its liquidity ledger and the positions users hold.

use vstd::prelude::*;
use crate::curve::{
    lemma_buy_product, lemma_buy_within_reserve, lemma_sell_product, lemma_sell_within_total,
};
use crate::errors::PredictionMarketError;
use crate::pubkey::Pubkey;
use crate::state::config::Config;
use crate::state::model::{
    lemma_lp_position_is_first, lemma_lp_sum_push, lemma_lp_sum_update, lp_position,
    lp_position_from, selects_yes, LiquidityEffect, MarketView, ResolutionEffect, SwapEffect,
};
use crate::utils::split_fee;

verus! {

/// What one user holds in one market.
#[derive(Clone, Copy, Debug, PartialEq, Eq)]
pub struct UserInfo {
    /// The holder.
    pub user: Pubkey,
    /// YES tokens held.
    pub yes_balance: u64,
    /// NO tokens held.
    pub no_balance: u64,
    /// Whether the user has ever provided liquidity to the market.
    pub is_lp: bool,
    /// Whether the record has been set up.
    pub is_initialized: bool,
}

/// One provider's stake in a market's liquidity.
#[derive(Clone, Copy, Debug, PartialEq, Eq)]
pub struct LpInfo {
    /// The provider.
    pub user: Pubkey,
    /// The collateral the provider may still withdraw.
    pub sol_amount: u64,
}

/// A market over one YES and one NO token.
#[derive(Debug, PartialEq, Eq)]
pub struct Market {
    /// The YES token.
    pub yes_token_mint: Pubkey,
    /// The NO token.
    pub no_token_mint: Pubkey,
    /// Who created the market.
    pub creator: Pubkey,
    /// Upper limit of the YES tokens on the curve; fixed at creation.
    pub initial_yes_token_reserves: u64,
    /// YES tokens the pool still holds.
    pub real_yes_token_reserves: u64,
    /// Collateral held against YES.
    pub real_yes_sol_reserves: u64,
    /// YES tokens minted.
    pub token_yes_total_supply: u64,
    /// Upper limit of the NO tokens on the curve; fixed at creation.
    pub initial_no_token_reserves: u64,
    /// NO tokens the pool still holds.
    pub real_no_token_reserves: u64,
    /// Collateral held against NO.
    pub real_no_sol_reserves: u64,
    /// NO tokens minted.
    pub token_no_total_supply: u64,
    /// Collateral that prices count on top of what either pool really
    /// holds; fixed at creation, possibly zero.
    pub virtual_sol_reserves: u64,
    /// Whether the market has been closed for good.
    pub is_completed: bool,
    /// First slot of trading, if the market has one.
    pub start_slot: Option<u64>,
    /// Last slot of trading, if the market has one.
    pub ending_slot: Option<u64>,
    /// The liquidity providers, in order of arrival.
    pub lps: Vec<LpInfo>,
    /// The collateral all providers together may still withdraw.
    pub total_lp_amount: u64,
}

/// The price of a sell, with the collateral reserves before and after.
#[derive(Clone, Copy, Debug, PartialEq, Eq, Structural)]
pub struct SellResult {
    /// Tokens sold.
    pub token_amount: u64,
    /// Collateral released by the curve, before fees.
    pub change_amount: u64,
    /// Collateral held against YES before the sell.
    pub current_yes_reserves: u64,
    /// Collateral held against NO before the sell.
    pub current_no_reserves: u64,
    /// Collateral held against YES after the sell.
    pub new_yes_reserves: u64,
    /// Collateral held against NO after the sell.
    pub new_no_reserves: u64,
}

/// The price of a buy, with the collateral reserves before and after.
#[derive(Clone, Copy, Debug, PartialEq, Eq, Structural)]
pub struct BuyResult {
    /// Tokens bought.
    pub token_amount: u64,
    /// Collateral paid into the curve.
    pub change_amount: u64,
    /// Collateral held against YES before the buy.
    pub current_yes_reserves: u64,
    /// Collateral held against NO before the buy.
    pub current_no_reserves: u64,
    /// Collateral held against YES after the buy.
    pub new_yes_reserves: u64,
    /// Collateral held against NO after the buy.
    pub new_no_reserves: u64,
}

/// What the creator of a market chooses.
#[derive(Debug, PartialEq, Eq)]
pub struct CreateMarketParams {
    /// Symbol of the YES token.
    pub yes_symbol: String,
    /// Where the metadata of the YES token is found.
    pub yes_uri: String,
    /// First slot of trading, if any.
    pub start_slot: Option<u64>,
    /// Last slot of trading, if any.
    pub ending_slot: Option<u64>,
    /// Collateral that prices count on top of what the pools really hold.
    pub virtual_sol_reserves: u64,
}

impl Clone for CreateMarketParams {
    /// A copy with the same choices.
    fn clone(&self) -> (copy: CreateMarketParams)
        ensures
            copy == *self,
    {
        CreateMarketParams {
            yes_symbol: self.yes_symbol.clone(),
            yes_uri: self.yes_uri.clone(),
            start_slot: self.start_slot,
            ending_slot: self.ending_slot,
            virtual_sol_reserves: self.virtual_sol_reserves,
        }
    }
}

impl Clone for Market {
    /// A copy that is the same market.
    fn clone(&self) -> (copy: Market)
        ensures
            copy@ == self@,
    {
        let mut lps: Vec<LpInfo> = Vec::new();
        let mut i: usize = 0;
        while i < self.lps.len()
            invariant
                i <= self.lps.len(),
                lps@ == self.lps@.subrange(0, i as int),
            decreases self.lps.len() - i,
        {
            lps.push(self.lps[i]);
            proof {
                assert(lps@ =~= self.lps@.subrange(0, i + 1));
            }
            i += 1;
        }
        proof {
            assert(lps@ =~= self.lps@);
        }
        Market {
            yes_token_mint: self.yes_token_mint,
            no_token_mint: self.no_token_mint,
            creator: self.creator,
            initial_yes_token_reserves: self.initial_yes_token_reserves,
            real_yes_token_reserves: self.real_yes_token_reserves,
            real_yes_sol_reserves: self.real_yes_sol_reserves,
            token_yes_total_supply: self.token_yes_total_supply,
            initial_no_token_reserves: self.initial_no_token_reserves,
            real_no_token_reserves: self.real_no_token_reserves,
            real_no_sol_reserves: self.real_no_sol_reserves,
            token_no_total_supply: self.token_no_total_supply,
            virtual_sol_reserves: self.virtual_sol_reserves,
            is_completed: self.is_completed,
            start_slot: self.start_slot,
            ending_slot: self.ending_slot,
            lps,
            total_lp_amount: self.total_lp_amount,
        }
    }
}

/// What a committed swap asks the caller to move.
#[derive(Clone, Copy, Debug, PartialEq, Eq, Structural)]
pub struct SwapReceipt {
    /// Whether the user bought (collateral in, tokens out) or sold.
    pub is_buy: bool,
    /// Whether the swap traded YES tokens.
    pub is_yes: bool,
    /// Collateral before fees: what the buyer pays, or what the curve
    /// releases for the seller.
    pub sol_amount: u64,
    /// Tokens the buyer receives or the seller hands in.
    pub token_amount: u64,
    /// The platform's fee, in collateral.
    pub platform_fee: u64,
    /// The liquidity providers' fee, in collateral.
    pub lp_fee: u64,
    /// Collateral after fees: what enters the pool on a buy, or what the
    /// seller receives.
    pub net_amount: u64,
}

impl SwapReceipt {
    /// What the user receives: tokens on a buy, collateral after fees on a
    /// sell.
    pub open spec fn received(self) -> u64 {
        if self.is_buy {
            self.token_amount
        } else {
            self.net_amount
        }
    }
}

impl UserInfo {
    /// The user's balance of the selected outcome.
    pub open spec fn balance(self, token_type: u8) -> u64 {
        if selects_yes(token_type) {
            self.yes_balance
        } else {
            self.no_balance
        }
    }

    /// The record with the balance of the selected outcome replaced.
    pub open spec fn with_balance(self, token_type: u8, amount: u64) -> UserInfo {
        if selects_yes(token_type) {
            UserInfo { yes_balance: amount, ..self }
        } else {
            UserInfo { no_balance: amount, ..self }
        }
    }

    /// A fresh record of `user`: nothing held, no liquidity provided.
    pub open spec fn fresh(user: Pubkey) -> UserInfo {
        UserInfo { user, yes_balance: 0, no_balance: 0, is_lp: false, is_initialized: true }
    }

    /// The record itself if it has been set up, else a fresh one of `user`.
    pub open spec fn initialized_for(self, user: Pubkey) -> UserInfo {
        if self.is_initialized {
            self
        } else {
            UserInfo::fresh(user)
        }
    }

    /// Sets the record up for `user` unless that has been done before; a
    /// record already set up is left as it is.
    pub fn initialize_if_absent(&mut self, user: &Pubkey)
        ensures
            *final(self) == old(self).initialized_for(*user),
            final(self).is_initialized,
    {
        if !self.is_initialized {
            self.user = *user;
            self.yes_balance = 0;
            self.no_balance = 0;
            self.is_lp = false;
            self.is_initialized = true;
        }
    }

    /// The user's balance of the selected outcome.
    pub fn balance_of(&self, token_type: u8) -> (amount: u64)
        ensures
            amount == self.balance(token_type),
    {
        if token_type == 0 {
            self.yes_balance
        } else {
            self.no_balance
        }
    }

    /// Replaces the balance of the selected outcome.
    fn set_balance(&mut self, token_type: u8, amount: u64)
        ensures
            *final(self) == old(self).with_balance(token_type, amount),
    {
        if token_type == 0 {
            self.yes_balance = amount;
        } else {
            self.no_balance = amount;
        }
    }

    /// Adds `amount` tokens of the selected outcome to the balance.
    ///
    /// A balance that would leave 64 bits is refused and nothing changes.
    pub fn credit(&mut self, token_type: u8, amount: u64) -> (out: Result<
        (),
        PredictionMarketError,
    >)
        ensures
            out is Ok <==> old(self).balance(token_type) + amount <= u64::MAX,
            out is Ok ==> *final(self) == old(self).with_balance(
                token_type,
                (old(self).balance(token_type) + amount) as u64,
            ),
            out is Err ==> *final(self) == *old(self),
            out matches Err(e) ==> e == PredictionMarketError::ArithmeticError,
    {
        match self.balance_of(token_type).checked_add(amount) {
            Some(sum) => {
                self.set_balance(token_type, sum);
                Ok(())
            },
            None => Err(PredictionMarketError::ArithmeticError),
        }
    }

    /// Takes `amount` tokens of the selected outcome from the balance.
    ///
    /// More than the balance is refused and nothing changes.
    pub fn debit(&mut self, token_type: u8, amount: u64) -> (out: Result<
        (),
        PredictionMarketError,
    >)
        ensures
            out is Ok <==> amount <= old(self).balance(token_type),
            out is Ok ==> *final(self) == old(self).with_balance(
                token_type,
                (old(self).balance(token_type) - amount) as u64,
            ),
            out is Err ==> *final(self) == *old(self),
            out matches Err(e) ==> e == PredictionMarketError::InsufficientTokens,
    {
        let balance: u64 = self.balance_of(token_type);
        if amount > balance {
            Err(PredictionMarketError::InsufficientTokens)
        } else {
            self.set_balance(token_type, balance - amount);
            Ok(())
        }
    }
}

impl Market {
    /// Collateral really held against the selected outcome.
    pub fn real_sol_reserves(&self, token_type: u8) -> (amount: u64)
        ensures
            amount == self@.real_sol(token_type),
    {
        if token_type == 0 {
            self.real_yes_sol_reserves
        } else {
            self.real_no_sol_reserves
        }
    }

    /// Tokens of the selected outcome the pool still holds.
    pub fn real_token_reserves(&self, token_type: u8) -> (amount: u64)
        ensures
            amount == self@.real_token(token_type),
    {
        if token_type == 0 {
            self.real_yes_token_reserves
        } else {
            self.real_no_token_reserves
        }
    }

    /// Replaces the selected outcome's collateral and token reserves.
    fn set_reserves(&mut self, token_type: u8, real_sol: u64, real_token: u64)
        ensures
            final(self)@ == old(self)@.with_reserves(token_type, real_sol, real_token),
    {
        if token_type == 0 {
            self.real_yes_sol_reserves = real_sol;
            self.real_yes_token_reserves = real_token;
        } else {
            self.real_no_sol_reserves = real_sol;
            self.real_no_token_reserves = real_token;
        }
    }

    /// The position of the record of `user` among the providers, or their
    /// number when the user has none.
    pub fn find_provider(&self, user: &Pubkey) -> (at: usize)
        ensures
            at == lp_position(self@.lps, *user),
            at <= self.lps.len(),
    {
        let mut i: usize = 0;
        while i < self.lps.len()
            invariant
                i <= self.lps.len(),
                lp_position(self@.lps, *user) == lp_position_from(self@.lps, *user, i as int),
            decreases self.lps.len() - i,
        {
            if self.lps[i].user == *user {
                return i;
            }
            i += 1;
        }
        i
    }

    /// The collateral the curve releases for `token_amount` tokens, before
    /// fees and whether or not the pool really holds that much; `None`
    /// where the curve does not price the sell.
    pub fn price_sell(&self, token_amount: u64, token_type: u8) -> (out: Option<u64>)
        ensures
            out.is_some() == self@.can_price_sell(token_amount, token_type),
            out matches Some(sol_out) ==> sol_out == self@.sol_for(token_amount, token_type),
    {
        let real_sol: u64 = self.real_sol_reserves(token_type);
        let real_token: u64 = self.real_token_reserves(token_type);
        let initial_token: u64 = if token_type == 0 {
            self.initial_yes_token_reserves
        } else {
            self.initial_no_token_reserves
        };
        if token_amount == 0 {
            return None;
        }
        let new_token: u128 = real_token as u128 + token_amount as u128;
        if new_token > initial_token as u128 {
            return None;
        }
        let total_sol: u128 = self.virtual_sol_reserves as u128 + real_sol as u128;
        if total_sol > u64::MAX as u128 {
            return None;
        }
        proof {
            lemma_sell_within_total(real_token as int, total_sol as int, token_amount as int);
            assert(0 <= real_token * total_sol <= u128::MAX) by (nonlinear_arith)
                requires
                    0 <= real_token <= u64::MAX,
                    0 <= total_sol <= u64::MAX,
            ;
        }
        let product: u128 = real_token as u128 * total_sol;
        let new_total_sol: u128 = product / new_token;
        Some((total_sol - new_total_sol) as u64)
    }
}

/// The operations of a market.
///
/// What each does is stated with its implementation for [`Market`], over
/// the market as a mathematical value.
pub trait MarketAccount {
    /// Trades `amount` against the market for `user`: a buy for that much
    /// collateral where `direction` is zero, else a sell of that many
    /// tokens.
    fn swap(
        &mut self,
        global_config: &Config,
        amount: u64,
        direction: u8,
        token_type: u8,
        minimum_receive_amount: u64,
        user: &Pubkey,
        user_info_pda: &mut UserInfo,
        current_slot: u64,
    ) -> Result<SwapReceipt, PredictionMarketError>;

    /// Prices a buy with `change_amount` collateral.
    fn get_tokens_for_buy_sol(&self, change_amount: u64, token_type: u8) -> Option<BuyResult>;

    /// Prices a sell of `token_amount` tokens.
    fn get_tokens_for_sell_sol(&self, token_amount: u64, token_type: u8) -> Option<SellResult>;

    /// Prices a buy and moves the reserves accordingly.
    fn apply_buy(&mut self, change_amount: u64, token_type: u8) -> Option<BuyResult>;

    /// Prices a sell and moves the reserves accordingly.
    fn apply_sell(&mut self, token_amount: u64, token_type: u8) -> Option<SellResult>;

    /// Pays out what a holder holds of the winning outcome.
    fn resolution(&mut self, user_info_pda: &mut UserInfo, token_type: u8) -> Result<
        u64,
        PredictionMarketError,
    >;

    /// Takes a deposit of collateral from a liquidity provider.
    fn add_liquidity(&mut self, user: &Pubkey, sol_amount: u64, user_info_pda: &mut UserInfo) -> Result<
        (),
        PredictionMarketError,
    >;

    /// Hands collateral back to a liquidity provider.
    fn withdraw_liquidity(&mut self, user: &Pubkey, sol_amount: u64) -> Result<
        (),
        PredictionMarketError,
    >;
}

impl MarketAccount for Market {
    /// Carries out a swap as a whole or not at all.
    ///
    /// In this order: a completed market takes no swap; nor does one whose
    /// last slot of trading lies before `current_slot`; the user's record is
    /// set up if it was not; the fees are split off and the curve prices the
    /// trade; a result below `minimum_receive_amount` is refused; so is a
    /// sell of more tokens than the user holds or of more collateral than
    /// the pool holds. Only then do reserves and record change.
    fn swap(
        &mut self,
        global_config: &Config,
        amount: u64,
        direction: u8,
        token_type: u8,
        minimum_receive_amount: u64,
        user: &Pubkey,
        user_info_pda: &mut UserInfo,
        current_slot: u64,
    ) -> (out: Result<SwapReceipt, PredictionMarketError>)
        ensures
            match out {
                Ok(receipt) => old(self)@.swap(
                    *global_config,
                    amount,
                    direction,
                    token_type,
                    minimum_receive_amount,
                    *user,
                    *old(user_info_pda),
                    current_slot,
                ) == Ok::<SwapEffect, PredictionMarketError>(
                    SwapEffect { market: final(self)@, user: *final(user_info_pda), receipt },
                ),
                Err(e) => {
                    &&& old(self)@.swap(
                        *global_config,
                        amount,
                        direction,
                        token_type,
                        minimum_receive_amount,
                        *user,
                        *old(user_info_pda),
                        current_slot,
                    ) == Err::<SwapEffect, PredictionMarketError>(e)
                    &&& final(self)@ == old(self)@
                    &&& *final(user_info_pda) == *old(user_info_pda)
                },
            },
            out matches Ok(receipt) ==> receipt.received() >= minimum_receive_amount,
            out is Ok ==> final(self)@.product(0) <= old(self)@.product(0),
            out is Ok ==> final(self)@.product(1) <= old(self)@.product(1),
            old(self)@.well_formed() ==> final(self)@.well_formed(),
    {
        if self.is_completed {
            return Err(PredictionMarketError::CurveAlreadyCompleted);
        }
        if let Some(end) = self.ending_slot {
            if end < current_slot {
                return Err(PredictionMarketError::InvalidEndTime);
            }
        }
        let mut holder: UserInfo = *user_info_pda;
        holder.initialize_if_absent(user);
        let real_sol: u64 = self.real_sol_reserves(token_type);
        let real_token: u64 = self.real_token_reserves(token_type);
        if direction == 0 {
            let (platform_fee, lp_fee, net) = match split_fee(
                amount,
                global_config.platform_buy_fee,
                global_config.lp_buy_fee,
            ) {
                Ok(parts) => parts,
                Err(e) => {
                    return Err(e);
                },
            };
            let quote: BuyResult = match self.get_tokens_for_buy_sol(net, token_type) {
                Some(quote) => quote,
                None => {
                    return Err(PredictionMarketError::ArithmeticError);
                },
            };
            if quote.token_amount < minimum_receive_amount {
                return Err(PredictionMarketError::ReturnAmountTooSmall);
            }
            match holder.credit(token_type, quote.token_amount) {
                Ok(()) => {},
                Err(e) => {
                    return Err(e);
                },
            }
            proof {
                lemma_buy_within_reserve(
                    real_token as int,
                    old(self)@.total_sol(token_type),
                    net as int,
                );
                lemma_buy_product(
                    real_token as int,
                    old(self)@.total_sol(token_type),
                    net as int,
                );
            }
            self.set_reserves(token_type, real_sol + net, real_token - quote.token_amount);
            *user_info_pda = holder;
            Ok(
                SwapReceipt {
                    is_buy: true,
                    is_yes: token_type == 0,
                    sol_amount: amount,
                    token_amount: quote.token_amount,
                    platform_fee,
                    lp_fee,
                    net_amount: net,
                },
            )
        } else {
            let gross: u64 = match self.price_sell(amount, token_type) {
                Some(gross) => gross,
                None => {
                    return Err(PredictionMarketError::ArithmeticError);
                },
            };
            let (platform_fee, lp_fee, net) = match split_fee(
                gross,
                global_config.platform_sell_fee,
                global_config.lp_sell_fee,
            ) {
                Ok(parts) => parts,
                Err(e) => {
                    return Err(e);
                },
            };
            if net < minimum_receive_amount {
                return Err(PredictionMarketError::ReturnAmountTooSmall);
            }
            match holder.debit(token_type, amount) {
                Ok(()) => {},
                Err(e) => {
                    return Err(e);
                },
            }
            if gross > real_sol {
                return Err(PredictionMarketError::InsufficientSol);
            }
            proof {
                lemma_sell_product(
                    real_token as int,
                    old(self)@.total_sol(token_type),
                    amount as int,
                );
            }
            self.set_reserves(token_type, real_sol - gross, real_token + amount);
            *user_info_pda = holder;
            Ok(
                SwapReceipt {
                    is_buy: false,
                    is_yes: token_type == 0,
                    sol_amount: gross,
                    token_amount: amount,
                    platform_fee,
                    lp_fee,
                    net_amount: net,
                },
            )
        }
    }

    /// The tokens the curve gives for `change_amount` collateral, with the
    /// collateral reserves before and after.
    ///
    /// The pool keeps `product / (total collateral + change_amount)` tokens,
    /// rounded down, and gives out the rest. There is no price for nothing,
    /// nor where the collateral counted afterwards would leave 64 bits.
    fn get_tokens_for_buy_sol(&self, change_amount: u64, token_type: u8) -> (out: Option<BuyResult>)
        ensures
            out == self@.quote_buy(change_amount, token_type),
            out matches Some(quote) ==> quote.token_amount <= self@.real_token(token_type),
    {
        let real_sol: u64 = self.real_sol_reserves(token_type);
        let real_token: u64 = self.real_token_reserves(token_type);
        if change_amount == 0 {
            return None;
        }
        let total_sol: u128 = self.virtual_sol_reserves as u128 + real_sol as u128;
        let new_total_sol: u128 = total_sol + change_amount as u128;
        if new_total_sol > u64::MAX as u128 {
            return None;
        }
        proof {
            lemma_buy_within_reserve(real_token as int, total_sol as int, change_amount as int);
            assert(0 <= real_token * total_sol <= u128::MAX) by (nonlinear_arith)
                requires
                    0 <= real_token <= u64::MAX,
                    0 <= total_sol <= u64::MAX,
            ;
        }
        let product: u128 = real_token as u128 * total_sol;
        let new_token: u128 = product / new_total_sol;
        let token_amount: u64 = real_token - new_token as u64;
        let new_sol: u64 = real_sol + change_amount;
        Some(
            BuyResult {
                token_amount,
                change_amount,
                current_yes_reserves: self.real_yes_sol_reserves,
                current_no_reserves: self.real_no_sol_reserves,
                new_yes_reserves: if token_type == 0 {
                    new_sol
                } else {
                    self.real_yes_sol_reserves
                },
                new_no_reserves: if token_type == 0 {
                    self.real_no_sol_reserves
                } else {
                    new_sol
                },
            },
        )
    }

    /// The collateral the curve releases for `token_amount` tokens, with
    /// the collateral reserves before and after.
    ///
    /// The curve keeps `product / (tokens in the pool + token_amount)`
    /// collateral, rounded down, and releases the rest. There is no price
    /// for nothing, nor where the pool would hold more tokens than its
    /// limit, nor where it holds less collateral than it would release.
    fn get_tokens_for_sell_sol(&self, token_amount: u64, token_type: u8) -> (out: Option<
        SellResult,
    >)
        ensures
            out == self@.quote_sell(token_amount, token_type),
    {
        let real_sol: u64 = self.real_sol_reserves(token_type);
        let change_amount: u64 = match self.price_sell(token_amount, token_type) {
            Some(gross) => gross,
            None => {
                return None;
            },
        };
        if change_amount > real_sol {
            return None;
        }
        let new_sol: u64 = real_sol - change_amount;
        Some(
            SellResult {
                token_amount,
                change_amount,
                current_yes_reserves: self.real_yes_sol_reserves,
                current_no_reserves: self.real_no_sol_reserves,
                new_yes_reserves: if token_type == 0 {
                    new_sol
                } else {
                    self.real_yes_sol_reserves
                },
                new_no_reserves: if token_type == 0 {
                    self.real_no_sol_reserves
                } else {
                    new_sol
                },
            },
        )
    }

    /// Prices a buy as `get_tokens_for_buy_sol` does and, where there is a
    /// price, moves the collateral into the pool and the tokens out of it.
    fn apply_buy(&mut self, change_amount: u64, token_type: u8) -> (out: Option<BuyResult>)
        ensures
            out == old(self)@.quote_buy(change_amount, token_type),
            out is Some ==> final(self)@ == old(self)@.after_buy(change_amount, token_type),
            out is None ==> final(self)@ == old(self)@,
            final(self)@.product(token_type) <= old(self)@.product(token_type),
            old(self)@.well_formed() ==> final(self)@.well_formed(),
    {
        let quote: BuyResult = self.get_tokens_for_buy_sol(change_amount, token_type)?;
        let real_sol: u64 = self.real_sol_reserves(token_type);
        let real_token: u64 = self.real_token_reserves(token_type);
        proof {
            lemma_buy_within_reserve(
                real_token as int,
                old(self)@.total_sol(token_type),
                change_amount as int,
            );
            lemma_buy_product(
                real_token as int,
                old(self)@.total_sol(token_type),
                change_amount as int,
            );
        }
        self.set_reserves(token_type, real_sol + change_amount, real_token - quote.token_amount);
        Some(quote)
    }

    /// Prices a sell as `get_tokens_for_sell_sol` does and, where there is
    /// a price, moves the tokens into the pool and the collateral out of it.
    fn apply_sell(&mut self, token_amount: u64, token_type: u8) -> (out: Option<SellResult>)
        ensures
            out == old(self)@.quote_sell(token_amount, token_type),
            out is Some ==> final(self)@ == old(self)@.after_sell(token_amount, token_type),
            out is None ==> final(self)@ == old(self)@,
            final(self)@.product(token_type) <= old(self)@.product(token_type),
            old(self)@.well_formed() ==> final(self)@.well_formed(),
    {
        let quote: SellResult = self.get_tokens_for_sell_sol(token_amount, token_type)?;
        let real_sol: u64 = self.real_sol_reserves(token_type);
        let real_token: u64 = self.real_token_reserves(token_type);
        proof {
            lemma_sell_within_total(
                real_token as int,
                old(self)@.total_sol(token_type),
                token_amount as int,
            );
            lemma_sell_product(
                real_token as int,
                old(self)@.total_sol(token_type),
                token_amount as int,
            );
        }
        self.set_reserves(token_type, real_sol - quote.change_amount, real_token + token_amount);
        Some(quote)
    }

    /// Redeems the holder's balance of the winning outcome `token_type`.
    ///
    /// In this order: a completed market pays nothing more; the outcome
    /// must be YES (0) or NO (1); the payout must be computable and fit in
    /// 64 bits; the pool must hold it. Then the payout leaves the
    /// collateral held against the outcome and the holder's balance of it
    /// becomes zero, so that redeeming again pays nothing.
    fn resolution(&mut self, user_info_pda: &mut UserInfo, token_type: u8) -> (out: Result<
        u64,
        PredictionMarketError,
    >)
        ensures
            match out {
                Ok(payout) => old(self)@.resolution(*old(user_info_pda), token_type) == Ok::<
                    ResolutionEffect,
                    PredictionMarketError,
                >(ResolutionEffect { market: final(self)@, user: *final(user_info_pda), payout }),
                Err(e) => {
                    &&& old(self)@.resolution(*old(user_info_pda), token_type) == Err::<
                        ResolutionEffect,
                        PredictionMarketError,
                    >(e)
                    &&& final(self)@ == old(self)@
                    &&& *final(user_info_pda) == *old(user_info_pda)
                },
            },
            out is Ok ==> final(user_info_pda).balance(token_type) == 0,
            old(self)@.well_formed() ==> final(self)@.well_formed(),
    {
        if self.is_completed {
            return Err(PredictionMarketError::MarketIsCompleted);
        }
        if token_type > 1 {
            return Err(PredictionMarketError::RESOLUTIONTOKEYTYPEERROR);
        }
        let balance: u64 = user_info_pda.balance_of(token_type);
        let real_sol: u64 = self.real_sol_reserves(token_type);
        let real_token: u64 = self.real_token_reserves(token_type);
        let supply: u64 = if token_type == 0 {
            self.token_yes_total_supply
        } else {
            self.token_no_total_supply
        };
        if supply == 0 {
            return Err(PredictionMarketError::ArithmeticError);
        }
        proof {
            assert(0 <= balance * real_sol <= u128::MAX) by (nonlinear_arith)
                requires
                    0 <= balance <= u64::MAX,
                    0 <= real_sol <= u64::MAX,
            ;
        }
        let wide: u128 = (balance as u128 * real_sol as u128) / (supply as u128);
        if wide > u64::MAX as u128 {
            return Err(PredictionMarketError::ArithmeticError);
        }
        let payout: u64 = wide as u64;
        if payout > real_sol {
            return Err(PredictionMarketError::InsufficientSol);
        }
        self.set_reserves(token_type, real_sol - payout, real_token);
        user_info_pda.set_balance(token_type, 0);
        Ok(payout)
    }

    /// Records a deposit of `sol_amount` by `user`.
    ///
    /// In this order: a completed market takes no deposit; the amount must
    /// not be zero; no sum may leave 64 bits. Then the amount is added to
    /// the user's stake (in a new record at the end for a first deposit)
    /// and to the total; half of it, rounded down, is added to the
    /// collateral held against YES and the same to that held against NO;
    /// and the user's record, set up if it was not, is marked as a
    /// provider's.
    fn add_liquidity(&mut self, user: &Pubkey, sol_amount: u64, user_info_pda: &mut UserInfo) -> (out:
        Result<(), PredictionMarketError>)
        ensures
            match out {
                Ok(()) => old(self)@.add_liquidity(*user, sol_amount, *old(user_info_pda)) == Ok::<
                    LiquidityEffect,
                    PredictionMarketError,
                >(LiquidityEffect { market: final(self)@, user: *final(user_info_pda) }),
                Err(e) => {
                    &&& old(self)@.add_liquidity(*user, sol_amount, *old(user_info_pda)) == Err::<
                        LiquidityEffect,
                        PredictionMarketError,
                    >(e)
                    &&& final(self)@ == old(self)@
                    &&& *final(user_info_pda) == *old(user_info_pda)
                },
            },
            old(self)@.ledger_balanced() ==> final(self)@.ledger_balanced(),
            old(self)@.well_formed() ==> final(self)@.well_formed(),
    {
        if self.is_completed {
            return Err(PredictionMarketError::MarketIsCompleted);
        }
        if sol_amount == 0 {
            return Err(PredictionMarketError::WITHDRAWLIQUIDITYSOLAMOUNTERROR);
        }
        let at: usize = self.find_provider(user);
        let found: bool = at < self.lps.len();
        let stake: u64 = if found {
            self.lps[at].sol_amount
        } else {
            0
        };
        let share: u64 = sol_amount / 2;
        let new_total: u64 = match self.total_lp_amount.checked_add(sol_amount) {
            Some(sum) => sum,
            None => {
                return Err(PredictionMarketError::ArithmeticError);
            },
        };
        let new_stake: u64 = match stake.checked_add(sol_amount) {
            Some(sum) => sum,
            None => {
                return Err(PredictionMarketError::ArithmeticError);
            },
        };
        let new_yes: u64 = match self.real_yes_sol_reserves.checked_add(share) {
            Some(sum) => sum,
            None => {
                return Err(PredictionMarketError::ArithmeticError);
            },
        };
        let new_no: u64 = match self.real_no_sol_reserves.checked_add(share) {
            Some(sum) => sum,
            None => {
                return Err(PredictionMarketError::ArithmeticError);
            },
        };
        proof {
            lemma_lp_position_is_first(self@.lps, *user, 0);
        }
        if found {
            let provider: Pubkey = self.lps[at].user;
            proof {
                lemma_lp_sum_update(
                    self@.lps,
                    at as int,
                    LpInfo { user: provider, sol_amount: new_stake },
                );
            }
            self.lps[at] = LpInfo { user: provider, sol_amount: new_stake };
        } else {
            proof {
                lemma_lp_sum_push(self@.lps, LpInfo { user: *user, sol_amount: new_stake });
            }
            self.lps.push(LpInfo { user: *user, sol_amount: new_stake });
        }
        self.total_lp_amount = new_total;
        self.real_yes_sol_reserves = new_yes;
        self.real_no_sol_reserves = new_no;
        user_info_pda.initialize_if_absent(user);
        user_info_pda.is_lp = true;
        Ok(())
    }

    /// Records a withdrawal of `sol_amount` by `user`.
    ///
    /// In this order: the user must have a record among the providers; the
    /// amount must be neither zero nor more than the user's stake; the
    /// total and the two pools must hold what leaves them. Then the amount
    /// is taken from the stake and from the total, half of it, rounded
    /// down, from the collateral held against YES and the same from that
    /// held against NO. The record stays, also at zero.
    fn withdraw_liquidity(&mut self, user: &Pubkey, sol_amount: u64) -> (out: Result<
        (),
        PredictionMarketError,
    >)
        ensures
            match out {
                Ok(()) => old(self)@.withdraw_liquidity(*user, sol_amount) == Ok::<
                    MarketView,
                    PredictionMarketError,
                >(final(self)@),
                Err(e) => {
                    &&& old(self)@.withdraw_liquidity(*user, sol_amount) == Err::<
                        MarketView,
                        PredictionMarketError,
                    >(e)
                    &&& final(self)@ == old(self)@
                },
            },
            old(self)@.ledger_balanced() ==> final(self)@.ledger_balanced(),
            old(self)@.well_formed() ==> final(self)@.well_formed(),
    {
        let at: usize = self.find_provider(user);
        if at >= self.lps.len() {
            return Err(PredictionMarketError::WITHDRAWNOTLPERROR);
        }
        let stake: u64 = self.lps[at].sol_amount;
        if sol_amount == 0 || sol_amount > stake {
            return Err(PredictionMarketError::WITHDRAWLIQUIDITYSOLAMOUNTERROR);
        }
        if self.total_lp_amount < sol_amount {
            return Err(PredictionMarketError::ArithmeticError);
        }
        let share: u64 = sol_amount / 2;
        if self.real_yes_sol_reserves < share || self.real_no_sol_reserves < share {
            return Err(PredictionMarketError::InsufficientSol);
        }
        let provider: Pubkey = self.lps[at].user;
        proof {
            lemma_lp_sum_update(
                self@.lps,
                at as int,
                LpInfo { user: provider, sol_amount: (stake - sol_amount) as u64 },
            );
        }
        self.lps[at] = LpInfo { user: provider, sol_amount: stake - sol_amount };
        self.total_lp_amount = self.total_lp_amount - sol_amount;
        self.real_yes_sol_reserves = self.real_yes_sol_reserves - share;
        self.real_no_sol_reserves = self.real_no_sol_reserves - share;
        Ok(())
    }
}

} // verus!
