//! A market as a mathematical value, and what each operation makes of it.
//!
//! The contracts of the operations are stated over these definitions: an
//! operation succeeds exactly where its definition here gives `Ok`, leaves
//! market and records as the definition says, and fails with the error the
//! definition names.

use vstd::prelude::*;
use crate::curve::{buy_tokens_out, curve_product, sell_sol_out};
use crate::errors::PredictionMarketError;
use crate::pubkey::Pubkey;
use crate::state::config::Config;
use crate::state::market::{BuyResult, LpInfo, Market, SellResult, SwapReceipt, UserInfo};
use crate::utils::split_fee_spec;

verus! {

/// Whether an outcome selector names YES. Zero does; every other value
/// names NO.
pub open spec fn selects_yes(token_type: u8) -> bool {
    token_type == 0
}

/// A market as a mathematical value: the same fields, the list of
/// providers as a sequence.
pub ghost struct MarketView {
    pub yes_token_mint: Pubkey,
    pub no_token_mint: Pubkey,
    pub creator: Pubkey,
    pub initial_yes_token_reserves: u64,
    pub real_yes_token_reserves: u64,
    pub real_yes_sol_reserves: u64,
    pub token_yes_total_supply: u64,
    pub initial_no_token_reserves: u64,
    pub real_no_token_reserves: u64,
    pub real_no_sol_reserves: u64,
    pub token_no_total_supply: u64,
    pub virtual_sol_reserves: u64,
    pub is_completed: bool,
    pub start_slot: Option<u64>,
    pub ending_slot: Option<u64>,
    pub lps: Seq<LpInfo>,
    pub total_lp_amount: u64,
}

impl View for Market {
    type V = MarketView;

    open spec fn view(&self) -> MarketView {
        MarketView {
            yes_token_mint: self.yes_token_mint,
            no_token_mint: self.no_token_mint,
            creator: self.creator,
            initial_yes_token_reserves: self.initial_yes_token_reserves,
            real_yes_token_reserves: self.real_yes_token_reserves,
            real_yes_sol_reserves: self.real_yes_sol_reserves,
            token_yes_total_supply: self.token_yes_total_supply,
            initial_no_token_reserves: self.initial_no_token_reserves,
            real_no_token_reserves: self.real_no_token_reserves,
            real_no_sol_reserves: self.real_no_sol_reserves,
            token_no_total_supply: self.token_no_total_supply,
            virtual_sol_reserves: self.virtual_sol_reserves,
            is_completed: self.is_completed,
            start_slot: self.start_slot,
            ending_slot: self.ending_slot,
            lps: self.lps@,
            total_lp_amount: self.total_lp_amount,
        }
    }
}

/// A successful swap as a mathematical value: the market and the user's
/// record afterwards, and the receipt.
pub ghost struct SwapEffect {
    pub market: MarketView,
    pub user: UserInfo,
    pub receipt: SwapReceipt,
}

/// The sum of what the providers in `lps` may still withdraw.
pub open spec fn lp_sum(lps: Seq<LpInfo>) -> int
    decreases lps.len(),
{
    if lps.len() == 0 {
        0
    } else {
        lp_sum(lps.drop_last()) + lps.last().sol_amount
    }
}

/// The position of the first record of `user` at or after `from`, or the
/// length of `lps` when there is none.
pub open spec fn lp_position_from(lps: Seq<LpInfo>, user: Pubkey, from: int) -> int
    decreases lps.len() - from,
{
    if from < 0 || from >= lps.len() {
        lps.len() as int
    } else if lps[from].user == user {
        from
    } else {
        lp_position_from(lps, user, from + 1)
    }
}

/// The position of the record of `user`, or the length of `lps` when the
/// user has none.
pub open spec fn lp_position(lps: Seq<LpInfo>, user: Pubkey) -> int {
    lp_position_from(lps, user, 0)
}

impl MarketView {
    /// Collateral really held against the selected outcome.
    pub open spec fn real_sol(self, token_type: u8) -> u64 {
        if selects_yes(token_type) {
            self.real_yes_sol_reserves
        } else {
            self.real_no_sol_reserves
        }
    }

    /// Tokens of the selected outcome the pool still holds.
    pub open spec fn real_token(self, token_type: u8) -> u64 {
        if selects_yes(token_type) {
            self.real_yes_token_reserves
        } else {
            self.real_no_token_reserves
        }
    }

    /// Upper limit of the selected outcome's tokens on the curve.
    pub open spec fn initial_token(self, token_type: u8) -> u64 {
        if selects_yes(token_type) {
            self.initial_yes_token_reserves
        } else {
            self.initial_no_token_reserves
        }
    }

    /// Tokens of the selected outcome that were minted.
    pub open spec fn total_supply(self, token_type: u8) -> u64 {
        if selects_yes(token_type) {
            self.token_yes_total_supply
        } else {
            self.token_no_total_supply
        }
    }

    /// The collateral the curve of the selected outcome counts: the
    /// virtual offset plus what is really held.
    pub open spec fn total_sol(self, token_type: u8) -> int {
        self.virtual_sol_reserves + self.real_sol(token_type)
    }

    /// The curve's product for the selected outcome.
    pub open spec fn product(self, token_type: u8) -> int {
        curve_product(self.real_token(token_type) as int, self.total_sol(token_type))
    }

    /// Whether neither pool holds more tokens than its limit.
    pub open spec fn reserves_bounded(self) -> bool {
        &&& self.real_yes_token_reserves <= self.initial_yes_token_reserves
        &&& self.real_no_token_reserves <= self.initial_no_token_reserves
    }

    /// Whether the providers' stakes add up to the total.
    pub open spec fn ledger_balanced(self) -> bool {
        lp_sum(self.lps) == self.total_lp_amount
    }

    /// Whether no provider has two records.
    pub open spec fn providers_distinct(self) -> bool {
        forall|i: int, j: int|
            0 <= i < j < self.lps.len() ==> (#[trigger] self.lps[i]).user != (
            #[trigger] self.lps[j]).user
    }

    /// What every operation keeps true of a market: neither pool holds more
    /// tokens than its limit, the providers' stakes add up to the total,
    /// and no provider has two records.
    pub open spec fn well_formed(self) -> bool {
        &&& self.reserves_bounded()
        &&& self.ledger_balanced()
        &&& self.providers_distinct()
    }

    /// The market with the selected outcome's collateral and token reserves
    /// replaced.
    pub open spec fn with_reserves(self, token_type: u8, real_sol: u64, real_token: u64) -> MarketView {
        if selects_yes(token_type) {
            MarketView { real_yes_sol_reserves: real_sol, real_yes_token_reserves: real_token, ..self }
        } else {
            MarketView { real_no_sol_reserves: real_sol, real_no_token_reserves: real_token, ..self }
        }
    }

    /// Whether the curve prices a buy of `sol_in`: the amount is positive
    /// and the collateral the curve counts afterwards fits in 64 bits.
    pub open spec fn can_buy(self, sol_in: u64, token_type: u8) -> bool {
        &&& sol_in > 0
        &&& self.total_sol(token_type) + sol_in <= u64::MAX
    }

    /// The tokens the curve gives for `sol_in` collateral.
    pub open spec fn tokens_for(self, sol_in: u64, token_type: u8) -> int {
        buy_tokens_out(self.real_token(token_type) as int, self.total_sol(token_type), sol_in as int)
    }

    /// The price of buying with `sol_in` collateral, or `None` where the
    /// curve does not price it.
    pub open spec fn quote_buy(self, sol_in: u64, token_type: u8) -> Option<BuyResult> {
        if self.can_buy(sol_in, token_type) {
            Some(
                BuyResult {
                    token_amount: self.tokens_for(sol_in, token_type) as u64,
                    change_amount: sol_in,
                    current_yes_reserves: self.real_yes_sol_reserves,
                    current_no_reserves: self.real_no_sol_reserves,
                    new_yes_reserves: if selects_yes(token_type) {
                        (self.real_yes_sol_reserves + sol_in) as u64
                    } else {
                        self.real_yes_sol_reserves
                    },
                    new_no_reserves: if selects_yes(token_type) {
                        self.real_no_sol_reserves
                    } else {
                        (self.real_no_sol_reserves + sol_in) as u64
                    },
                },
            )
        } else {
            None
        }
    }

    /// The market after the buy that `quote_buy` priced.
    pub open spec fn after_buy(self, sol_in: u64, token_type: u8) -> MarketView {
        self.with_reserves(
            token_type,
            (self.real_sol(token_type) + sol_in) as u64,
            (self.real_token(token_type) - self.tokens_for(sol_in, token_type)) as u64,
        )
    }

    /// Whether the curve prices a sell of `tokens_in`: the amount is
    /// positive, the pool stays within its token limit, and the collateral
    /// the curve counts fits in 64 bits.
    pub open spec fn can_price_sell(self, tokens_in: u64, token_type: u8) -> bool {
        &&& tokens_in > 0
        &&& self.real_token(token_type) + tokens_in <= self.initial_token(token_type)
        &&& self.total_sol(token_type) <= u64::MAX
    }

    /// The collateral the curve releases for `tokens_in` tokens, before
    /// fees.
    pub open spec fn sol_for(self, tokens_in: u64, token_type: u8) -> int {
        sell_sol_out(self.real_token(token_type) as int, self.total_sol(token_type), tokens_in as int)
    }

    /// Whether a sell of `tokens_in` can be paid: the curve prices it and
    /// the pool really holds what it releases.
    pub open spec fn can_sell(self, tokens_in: u64, token_type: u8) -> bool {
        &&& self.can_price_sell(tokens_in, token_type)
        &&& self.sol_for(tokens_in, token_type) <= self.real_sol(token_type)
    }

    /// The price of selling `tokens_in` tokens, or `None` where the sell
    /// cannot be paid.
    pub open spec fn quote_sell(self, tokens_in: u64, token_type: u8) -> Option<SellResult> {
        if self.can_sell(tokens_in, token_type) {
            Some(
                SellResult {
                    token_amount: tokens_in,
                    change_amount: self.sol_for(tokens_in, token_type) as u64,
                    current_yes_reserves: self.real_yes_sol_reserves,
                    current_no_reserves: self.real_no_sol_reserves,
                    new_yes_reserves: if selects_yes(token_type) {
                        (self.real_yes_sol_reserves - self.sol_for(tokens_in, token_type)) as u64
                    } else {
                        self.real_yes_sol_reserves
                    },
                    new_no_reserves: if selects_yes(token_type) {
                        self.real_no_sol_reserves
                    } else {
                        (self.real_no_sol_reserves - self.sol_for(tokens_in, token_type)) as u64
                    },
                },
            )
        } else {
            None
        }
    }

    /// The market after the sell that `quote_sell` priced.
    pub open spec fn after_sell(self, tokens_in: u64, token_type: u8) -> MarketView {
        self.with_reserves(
            token_type,
            (self.real_sol(token_type) - self.sol_for(tokens_in, token_type)) as u64,
            (self.real_token(token_type) + tokens_in) as u64,
        )
    }
}

impl MarketView {
    /// Why the market takes no swap at `current_slot`, if it takes none:
    /// it has been completed, or its last slot of trading has passed.
    pub open spec fn trading_error(self, current_slot: u64) -> Option<PredictionMarketError> {
        if self.is_completed {
            Some(PredictionMarketError::CurveAlreadyCompleted)
        } else if self.ending_slot matches Some(end) && end < current_slot {
            Some(PredictionMarketError::InvalidEndTime)
        } else {
            None
        }
    }

    /// A buy for `amount` collateral by `holder`.
    ///
    /// The fees are taken from the amount and the rest is priced by the
    /// curve and enters the pool; the tokens go to the holder.
    pub open spec fn buy(
        self,
        config: Config,
        holder: UserInfo,
        amount: u64,
        token_type: u8,
        minimum_receive_amount: u64,
    ) -> Result<SwapEffect, PredictionMarketError> {
        match split_fee_spec(amount, config.platform_buy_fee, config.lp_buy_fee) {
            Err(e) => Err(e),
            Ok((platform_fee, lp_fee, net)) => {
                let tokens = self.tokens_for(net, token_type) as u64;
                if !self.can_buy(net, token_type) {
                    Err(PredictionMarketError::ArithmeticError)
                } else if tokens < minimum_receive_amount {
                    Err(PredictionMarketError::ReturnAmountTooSmall)
                } else if holder.balance(token_type) + tokens > u64::MAX {
                    Err(PredictionMarketError::ArithmeticError)
                } else {
                    Ok(
                        SwapEffect {
                            market: self.after_buy(net, token_type),
                            user: holder.with_balance(
                                token_type,
                                (holder.balance(token_type) + tokens) as u64,
                            ),
                            receipt: SwapReceipt {
                                is_buy: true,
                                is_yes: selects_yes(token_type),
                                sol_amount: amount,
                                token_amount: tokens,
                                platform_fee,
                                lp_fee,
                                net_amount: net,
                            },
                        },
                    )
                }
            },
        }
    }

    /// A sell of `amount` tokens by `holder`.
    ///
    /// The curve prices the tokens, the fees are taken from that price and
    /// the rest goes to the holder; the whole price leaves the pool.
    pub open spec fn sell(
        self,
        config: Config,
        holder: UserInfo,
        amount: u64,
        token_type: u8,
        minimum_receive_amount: u64,
    ) -> Result<SwapEffect, PredictionMarketError> {
        let gross = self.sol_for(amount, token_type) as u64;
        if !self.can_price_sell(amount, token_type) {
            Err(PredictionMarketError::ArithmeticError)
        } else {
            match split_fee_spec(gross, config.platform_sell_fee, config.lp_sell_fee) {
                Err(e) => Err(e),
                Ok((platform_fee, lp_fee, net)) => {
                    if net < minimum_receive_amount {
                        Err(PredictionMarketError::ReturnAmountTooSmall)
                    } else if holder.balance(token_type) < amount {
                        Err(PredictionMarketError::InsufficientTokens)
                    } else if gross > self.real_sol(token_type) {
                        Err(PredictionMarketError::InsufficientSol)
                    } else {
                        Ok(
                            SwapEffect {
                                market: self.after_sell(amount, token_type),
                                user: holder.with_balance(
                                    token_type,
                                    (holder.balance(token_type) - amount) as u64,
                                ),
                                receipt: SwapReceipt {
                                    is_buy: false,
                                    is_yes: selects_yes(token_type),
                                    sol_amount: gross,
                                    token_amount: amount,
                                    platform_fee,
                                    lp_fee,
                                    net_amount: net,
                                },
                            },
                        )
                    }
                },
            }
        }
    }

    /// A swap at `current_slot` by `user`, whose record so far is `info`:
    /// a buy where `direction` is zero, a sell otherwise.
    pub open spec fn swap(
        self,
        config: Config,
        amount: u64,
        direction: u8,
        token_type: u8,
        minimum_receive_amount: u64,
        user: Pubkey,
        info: UserInfo,
        current_slot: u64,
    ) -> Result<SwapEffect, PredictionMarketError> {
        match self.trading_error(current_slot) {
            Some(e) => Err(e),
            None => {
                let holder = info.initialized_for(user);
                if direction == 0 {
                    self.buy(config, holder, amount, token_type, minimum_receive_amount)
                } else {
                    self.sell(config, holder, amount, token_type, minimum_receive_amount)
                }
            },
        }
    }
}

/// A successful change of liquidity as a mathematical value: the market
/// and the provider's record afterwards.
pub ghost struct LiquidityEffect {
    pub market: MarketView,
    pub user: UserInfo,
}

/// A successful redemption as a mathematical value: the market and the
/// holder's record afterwards, and the collateral paid out.
pub ghost struct ResolutionEffect {
    pub market: MarketView,
    pub user: UserInfo,
    pub payout: u64,
}

/// The part of a liquidity amount that backs each of the two pools: half
/// of it, rounded down. The odd unit of an odd amount backs neither pool;
/// it counts towards the provider's stake and the total only.
pub open spec fn pool_share(sol_amount: u64) -> u64 {
    sol_amount / 2
}

impl MarketView {
    /// Whether `user` has a record among the providers.
    pub open spec fn has_provider(self, user: Pubkey) -> bool {
        lp_position(self.lps, user) < self.lps.len()
    }

    /// What `user` may still withdraw; nothing for one who has no record.
    pub open spec fn stake(self, user: Pubkey) -> u64 {
        if self.has_provider(user) {
            self.lps[lp_position(self.lps, user)].sol_amount
        } else {
            0
        }
    }

    /// The providers with the stake of `user` set to `amount`: in the
    /// user's record where there is one, else in a new record at the end.
    pub open spec fn with_stake(self, user: Pubkey, amount: u64) -> Seq<LpInfo> {
        let at = lp_position(self.lps, user);
        if self.has_provider(user) {
            self.lps.update(at, LpInfo { user: self.lps[at].user, sol_amount: amount })
        } else {
            self.lps.push(LpInfo { user, sol_amount: amount })
        }
    }

    /// A deposit of `sol_amount` by `user`, whose record so far is `info`.
    ///
    /// The amount is added to the user's stake and to the total, and each
    /// of the two pools receives half of it, rounded down.
    pub open spec fn add_liquidity(self, user: Pubkey, sol_amount: u64, info: UserInfo) -> Result<
        LiquidityEffect,
        PredictionMarketError,
    > {
        if self.is_completed {
            Err(PredictionMarketError::MarketIsCompleted)
        } else if sol_amount == 0 {
            Err(PredictionMarketError::WITHDRAWLIQUIDITYSOLAMOUNTERROR)
        } else if self.total_lp_amount + sol_amount > u64::MAX
            || self.stake(user) + sol_amount > u64::MAX
            || self.real_yes_sol_reserves + pool_share(sol_amount) > u64::MAX
            || self.real_no_sol_reserves + pool_share(sol_amount) > u64::MAX {
            Err(PredictionMarketError::ArithmeticError)
        } else {
            Ok(
                LiquidityEffect {
                    market: MarketView {
                        lps: self.with_stake(user, (self.stake(user) + sol_amount) as u64),
                        total_lp_amount: (self.total_lp_amount + sol_amount) as u64,
                        real_yes_sol_reserves: (self.real_yes_sol_reserves + pool_share(
                            sol_amount,
                        )) as u64,
                        real_no_sol_reserves: (self.real_no_sol_reserves + pool_share(
                            sol_amount,
                        )) as u64,
                        ..self
                    },
                    user: UserInfo { is_lp: true, ..info.initialized_for(user) },
                },
            )
        }
    }

    /// A withdrawal of `sol_amount` by `user`.
    ///
    /// The amount is taken from the user's stake and from the total, and
    /// each of the two pools gives up half of it, rounded down, as a
    /// deposit of the same amount added to it.
    pub open spec fn withdraw_liquidity(self, user: Pubkey, sol_amount: u64) -> Result<
        MarketView,
        PredictionMarketError,
    > {
        if !self.has_provider(user) {
            Err(PredictionMarketError::WITHDRAWNOTLPERROR)
        } else if sol_amount == 0 || sol_amount > self.stake(user) {
            Err(PredictionMarketError::WITHDRAWLIQUIDITYSOLAMOUNTERROR)
        } else if self.total_lp_amount < sol_amount {
            Err(PredictionMarketError::ArithmeticError)
        } else if self.real_yes_sol_reserves < pool_share(sol_amount) || self.real_no_sol_reserves
            < pool_share(sol_amount) {
            Err(PredictionMarketError::InsufficientSol)
        } else {
            Ok(
                MarketView {
                    lps: self.with_stake(user, (self.stake(user) - sol_amount) as u64),
                    total_lp_amount: (self.total_lp_amount - sol_amount) as u64,
                    real_yes_sol_reserves: (self.real_yes_sol_reserves - pool_share(
                        sol_amount,
                    )) as u64,
                    real_no_sol_reserves: (self.real_no_sol_reserves - pool_share(sol_amount)) as u64,
                    ..self
                },
            )
        }
    }

    /// What a holder of `balance` tokens of the winning outcome is paid:
    /// that share of the collateral held against the outcome which the
    /// balance is of the tokens minted, rounded down.
    pub open spec fn payout_for(self, balance: u64, token_type: u8) -> int {
        (balance as int * self.real_sol(token_type) as int) / (self.total_supply(token_type) as int)
    }

    /// The redemption of what the holder with record `info` holds of the
    /// winning outcome `token_type`.
    ///
    /// The payout leaves the collateral held against the outcome, and the
    /// holder's balance of the outcome becomes zero.
    pub open spec fn resolution(self, info: UserInfo, token_type: u8) -> Result<
        ResolutionEffect,
        PredictionMarketError,
    > {
        let payout = self.payout_for(info.balance(token_type), token_type);
        if self.is_completed {
            Err(PredictionMarketError::MarketIsCompleted)
        } else if token_type > 1 {
            Err(PredictionMarketError::RESOLUTIONTOKEYTYPEERROR)
        } else if self.total_supply(token_type) == 0 || payout > u64::MAX {
            Err(PredictionMarketError::ArithmeticError)
        } else if payout > self.real_sol(token_type) {
            Err(PredictionMarketError::InsufficientSol)
        } else {
            Ok(
                ResolutionEffect {
                    market: self.with_reserves(
                        token_type,
                        (self.real_sol(token_type) - payout) as u64,
                        self.real_token(token_type),
                    ),
                    user: info.with_balance(token_type, 0),
                    payout: payout as u64,
                },
            )
        }
    }
}

/// Adding a record adds its stake to the sum.
pub proof fn lemma_lp_sum_push(lps: Seq<LpInfo>, record: LpInfo)
    ensures
        lp_sum(lps.push(record)) == lp_sum(lps) + record.sol_amount,
{
    assert(lps.push(record).drop_last() =~= lps);
}

/// Replacing a record changes the sum by the difference of the stakes.
pub proof fn lemma_lp_sum_update(lps: Seq<LpInfo>, at: int, record: LpInfo)
    requires
        0 <= at < lps.len(),
    ensures
        lp_sum(lps.update(at, record)) == lp_sum(lps) - lps[at].sol_amount + record.sol_amount,
    decreases lps.len(),
{
    let updated = lps.update(at, record);
    if at == lps.len() - 1 {
        assert(updated.drop_last() =~= lps.drop_last());
    } else {
        lemma_lp_sum_update(lps.drop_last(), at, record);
        assert(updated.drop_last() =~= lps.drop_last().update(at, record));
    }
}

/// The position `lp_position` gives is that of the first record of the
/// user: it is within the list exactly when the user has a record, the
/// record there is the user's, and no earlier record is.
pub proof fn lemma_lp_position_is_first(lps: Seq<LpInfo>, user: Pubkey, from: int)
    requires
        0 <= from <= lps.len(),
    ensures
        from <= lp_position_from(lps, user, from) <= lps.len(),
        lp_position_from(lps, user, from) < lps.len() ==> lps[lp_position_from(
            lps,
            user,
            from,
        )].user == user,
        forall|j: int| from <= j < lp_position_from(lps, user, from) ==> lps[j].user != user,
    decreases lps.len() - from,
{
    if from < lps.len() && lps[from].user != user {
        lemma_lp_position_is_first(lps, user, from + 1);
    }
}

} // verus!
