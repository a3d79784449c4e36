//! What holds of the engine across calls.
//!
//! Every statement here is about the mathematical model of the operations,
//! the same one their contracts are stated in, and is proved from it.

use vstd::prelude::*;
use crate::curve::{
    lemma_buy_product, lemma_buy_within_reserve, lemma_round_trip, lemma_sell_product,
    lemma_sell_within_total, rounding_gain,
};
use crate::errors::PredictionMarketError;
use crate::pubkey::Pubkey;
use crate::state::config::Config;
use crate::state::market::{LpInfo, SwapReceipt, UserInfo};
use crate::state::model::{
    lemma_lp_position_is_first, lemma_lp_sum_push, lemma_lp_sum_update, lp_position, MarketView,
    ResolutionEffect, SwapEffect,
};

verus! {

/// Setting a record up is idempotent: once it has been set up, setting it
/// up again, for whomever, changes nothing.
pub proof fn law_record_is_set_up_once(info: UserInfo, user: Pubkey, other: Pubkey)
    ensures
        info.initialized_for(user).is_initialized,
        info.initialized_for(user).initialized_for(other) == info.initialized_for(user),
{
}

/// Rates that together stay within the whole (10 000 basis points) always
/// split: the two fees never exceed the amount.
pub proof fn law_fees_within_the_whole_split(amount: u64, platform_bps: u64, lp_bps: u64)
    requires
        platform_bps + lp_bps <= crate::constants::BPS_DENOMINATOR,
    ensures
        crate::utils::split_fee_spec(amount, platform_bps, lp_bps) is Ok,
{
    let a = amount as int;
    let p = platform_bps as int;
    let l = lp_bps as int;
    assert((a * p) / 10_000 + (a * l) / 10_000 <= a) by (nonlinear_arith)
        requires
            0 <= a,
            0 <= p,
            0 <= l,
            p + l <= 10_000,
    ;
}

/// A successful swap never raises the curve's product of either outcome:
/// fees stay outside the pools and every price is rounded down.
pub proof fn law_swap_never_raises_product(
    market: MarketView,
    config: Config,
    amount: u64,
    direction: u8,
    token_type: u8,
    minimum_receive_amount: u64,
    user: Pubkey,
    info: UserInfo,
    current_slot: u64,
    outcome: u8,
)
    requires
        market.swap(
            config,
            amount,
            direction,
            token_type,
            minimum_receive_amount,
            user,
            info,
            current_slot,
        ) is Ok,
    ensures
        market.swap(
            config,
            amount,
            direction,
            token_type,
            minimum_receive_amount,
            user,
            info,
            current_slot,
        )->Ok_0.market.product(outcome) <= market.product(outcome),
{
    let holder = info.initialized_for(user);
    if direction == 0 {
        let net = crate::utils::split_fee_spec(
            amount,
            config.platform_buy_fee,
            config.lp_buy_fee,
        )->Ok_0.2;
        lemma_buy_within_reserve(
            market.real_token(token_type) as int,
            market.total_sol(token_type),
            net as int,
        );
        lemma_buy_product(
            market.real_token(token_type) as int,
            market.total_sol(token_type),
            net as int,
        );
    } else {
        lemma_sell_within_total(
            market.real_token(token_type) as int,
            market.total_sol(token_type),
            amount as int,
        );
        lemma_sell_product(
            market.real_token(token_type) as int,
            market.total_sol(token_type),
            amount as int,
        );
    }
}

/// A successful swap leaves the product of the outcome it does not trade
/// as it is, and lowers that of the outcome it trades by exactly what the
/// division of the price leaves over: the product stays the same wherever
/// the price is a whole number.
pub proof fn law_swap_lowers_product_by_remainder(
    market: MarketView,
    config: Config,
    amount: u64,
    direction: u8,
    token_type: u8,
    minimum_receive_amount: u64,
    user: Pubkey,
    info: UserInfo,
    current_slot: u64,
)
    requires
        market.swap(
            config,
            amount,
            direction,
            token_type,
            minimum_receive_amount,
            user,
            info,
            current_slot,
        ) is Ok,
    ensures
        ({
            let done = market.swap(
                config,
                amount,
                direction,
                token_type,
                minimum_receive_amount,
                user,
                info,
                current_slot,
            )->Ok_0;
            let other: u8 = if token_type == 0 {
                1
            } else {
                0
            };
            let divisor = if direction == 0 {
                market.total_sol(token_type) + done.receipt.net_amount
            } else {
                market.real_token(token_type) + amount
            };
            &&& done.market.product(other) == market.product(other)
            &&& done.market.product(token_type) == market.product(token_type) - market.product(
                token_type,
            ) % divisor
        }),
{
    if direction == 0 {
        let net = crate::utils::split_fee_spec(
            amount,
            config.platform_buy_fee,
            config.lp_buy_fee,
        )->Ok_0.2;
        lemma_buy_within_reserve(
            market.real_token(token_type) as int,
            market.total_sol(token_type),
            net as int,
        );
        lemma_buy_product(
            market.real_token(token_type) as int,
            market.total_sol(token_type),
            net as int,
        );
    } else {
        lemma_sell_within_total(
            market.real_token(token_type) as int,
            market.total_sol(token_type),
            amount as int,
        );
        lemma_sell_product(
            market.real_token(token_type) as int,
            market.total_sol(token_type),
            amount as int,
        );
    }
}

/// Whether some successful swap leads from one market to the other.
pub open spec fn swap_step(before: MarketView, after: MarketView) -> bool {
    exists|
        config: Config,
        amount: u64,
        direction: u8,
        token_type: u8,
        minimum_receive_amount: u64,
        user: Pubkey,
        info: UserInfo,
        current_slot: u64,
    |
        {
            &&& (#[trigger] before.swap(
                config,
                amount,
                direction,
                token_type,
                minimum_receive_amount,
                user,
                info,
                current_slot,
            )) is Ok
            &&& before.swap(
                config,
                amount,
                direction,
                token_type,
                minimum_receive_amount,
                user,
                info,
                current_slot,
            )->Ok_0.market == after
        }
}

/// Whether each market of the sequence comes from the one before it by a
/// successful swap.
pub open spec fn swap_history(markets: Seq<MarketView>) -> bool {
    forall|i: int| 0 <= i < markets.len() - 1 ==> swap_step(#[trigger] markets[i], markets[i + 1])
}

/// Over any sequence of successful swaps the curve's product of either
/// outcome never increases.
pub proof fn law_product_never_increases(markets: Seq<MarketView>, i: int, j: int, outcome: u8)
    requires
        swap_history(markets),
        0 <= i <= j < markets.len(),
    ensures
        markets[j].product(outcome) <= markets[i].product(outcome),
    decreases j - i,
{
    if i < j {
        law_product_never_increases(markets, i, j - 1, outcome);
        let before = markets[j - 1];
        let after = markets[j];
        assert(swap_step(before, markets[j - 1 + 1]));
        let (config, amount, direction, token_type, minimum_receive_amount, user, info, current_slot) =
            choose|
            config: Config,
            amount: u64,
            direction: u8,
            token_type: u8,
            minimum_receive_amount: u64,
            user: Pubkey,
            info: UserInfo,
            current_slot: u64,
        |
            {
                &&& (#[trigger] before.swap(
                    config,
                    amount,
                    direction,
                    token_type,
                    minimum_receive_amount,
                    user,
                    info,
                    current_slot,
                )) is Ok
                &&& before.swap(
                    config,
                    amount,
                    direction,
                    token_type,
                    minimum_receive_amount,
                    user,
                    info,
                    current_slot,
                )->Ok_0.market == after
            };
        law_swap_never_raises_product(
            before,
            config,
            amount,
            direction,
            token_type,
            minimum_receive_amount,
            user,
            info,
            current_slot,
            outcome,
        );
    }
}

/// A swap that succeeds keeps a well-formed market well-formed.
pub proof fn law_swap_keeps_well_formed(
    market: MarketView,
    config: Config,
    amount: u64,
    direction: u8,
    token_type: u8,
    minimum_receive_amount: u64,
    user: Pubkey,
    info: UserInfo,
    current_slot: u64,
)
    requires
        market.well_formed(),
        market.swap(
            config,
            amount,
            direction,
            token_type,
            minimum_receive_amount,
            user,
            info,
            current_slot,
        ) is Ok,
    ensures
        market.swap(
            config,
            amount,
            direction,
            token_type,
            minimum_receive_amount,
            user,
            info,
            current_slot,
        )->Ok_0.market.well_formed(),
{
    if direction == 0 {
        let net = crate::utils::split_fee_spec(
            amount,
            config.platform_buy_fee,
            config.lp_buy_fee,
        )->Ok_0.2;
        lemma_buy_within_reserve(
            market.real_token(token_type) as int,
            market.total_sol(token_type),
            net as int,
        );
    }
}

/// After a deposit that succeeds, the providers' stakes add up to the
/// total if they did before.
pub proof fn law_deposit_keeps_ledger_balanced(
    market: MarketView,
    user: Pubkey,
    sol_amount: u64,
    info: UserInfo,
)
    requires
        market.ledger_balanced(),
        market.add_liquidity(user, sol_amount, info) is Ok,
    ensures
        market.add_liquidity(user, sol_amount, info)->Ok_0.market.ledger_balanced(),
{
    let at = lp_position(market.lps, user);
    let stake = (market.stake(user) + sol_amount) as u64;
    if market.has_provider(user) {
        lemma_lp_position_is_first(market.lps, user, 0);
        lemma_lp_sum_update(
            market.lps,
            at,
            LpInfo { user: market.lps[at].user, sol_amount: stake },
        );
    } else {
        lemma_lp_sum_push(market.lps, LpInfo { user, sol_amount: stake });
    }
}

/// After a withdrawal that succeeds, the providers' stakes add up to the
/// total if they did before.
pub proof fn law_withdrawal_keeps_ledger_balanced(
    market: MarketView,
    user: Pubkey,
    sol_amount: u64,
)
    requires
        market.ledger_balanced(),
        market.withdraw_liquidity(user, sol_amount) is Ok,
    ensures
        market.withdraw_liquidity(user, sol_amount)->Ok_0.ledger_balanced(),
{
    let at = lp_position(market.lps, user);
    let stake = (market.stake(user) - sol_amount) as u64;
    lemma_lp_position_is_first(market.lps, user, 0);
    lemma_lp_sum_update(
        market.lps,
        at,
        LpInfo { user: market.lps[at].user, sol_amount: stake },
    );
}

/// Redeeming a second time pays nothing: after a redemption that
/// succeeds, the same holder's next redemption of the same outcome
/// succeeds too, pays zero and changes neither market nor record.
pub proof fn law_no_double_redemption(market: MarketView, info: UserInfo, token_type: u8)
    requires
        market.resolution(info, token_type) is Ok,
    ensures
        ({
            let first = market.resolution(info, token_type)->Ok_0;
            first.market.resolution(first.user, token_type) == Ok::<
                ResolutionEffect,
                PredictionMarketError,
            >(ResolutionEffect { market: first.market, user: first.user, payout: 0 })
        }),
{
    let first = market.resolution(info, token_type)->Ok_0;
    let supply = market.total_supply(token_type) as int;
    let held = first.market.real_sol(token_type) as int;
    assert(first.user.balance(token_type) == 0);
    assert(first.market.total_supply(token_type) == market.total_supply(token_type));
    assert((0 * held) / supply == 0) by (nonlinear_arith)
        requires
            supply > 0,
    ;
    assert(first.market.payout_for(0, token_type) == 0);
    assert(first.user.with_balance(token_type, 0) == first.user);
    assert(first.market.with_reserves(
        token_type,
        first.market.real_sol(token_type),
        first.market.real_token(token_type),
    ) == first.market);
}

/// A swap never gives less than the floor the caller set: where it
/// succeeds, what the user receives is at least `minimum_receive_amount`.
pub proof fn law_swap_respects_floor(
    market: MarketView,
    config: Config,
    amount: u64,
    direction: u8,
    token_type: u8,
    minimum_receive_amount: u64,
    user: Pubkey,
    info: UserInfo,
    current_slot: u64,
)
    requires
        market.swap(
            config,
            amount,
            direction,
            token_type,
            minimum_receive_amount,
            user,
            info,
            current_slot,
        ) is Ok,
    ensures
        market.swap(
            config,
            amount,
            direction,
            token_type,
            minimum_receive_amount,
            user,
            info,
            current_slot,
        )->Ok_0.receipt.received() >= minimum_receive_amount,
{
}

/// A floor above the true quote always fails: if the swap without a floor
/// succeeds and gives less than `minimum_receive_amount`, the swap with
/// that floor fails.
pub proof fn law_floor_above_quote_fails(
    market: MarketView,
    config: Config,
    amount: u64,
    direction: u8,
    token_type: u8,
    minimum_receive_amount: u64,
    user: Pubkey,
    info: UserInfo,
    current_slot: u64,
)
    requires
        market.swap(config, amount, direction, token_type, 0, user, info, current_slot) is Ok,
        market.swap(
            config,
            amount,
            direction,
            token_type,
            0,
            user,
            info,
            current_slot,
        )->Ok_0.receipt.received() < minimum_receive_amount,
    ensures
        market.swap(
            config,
            amount,
            direction,
            token_type,
            minimum_receive_amount,
            user,
            info,
            current_slot,
        ) == Err::<SwapEffect, PredictionMarketError>(
            PredictionMarketError::ReturnAmountTooSmall,
        ),
{
}

/// The fees of a receipt, platform's and providers' together.
pub open spec fn fees_paid(receipt: SwapReceipt) -> int {
    receipt.platform_fee + receipt.lp_fee
}

/// The first half of a round trip: a buy for `amount` collateral, with no
/// floor.
pub open spec fn round_trip_buy(
    market: MarketView,
    config: Config,
    amount: u64,
    token_type: u8,
    user: Pubkey,
    info: UserInfo,
    current_slot: u64,
) -> Result<SwapEffect, PredictionMarketError> {
    market.swap(config, amount, 0, token_type, 0, user, info, current_slot)
}

/// The second half of a round trip: the sale, with no floor, of the very
/// tokens the buy gave, on the market and with the record the buy left.
pub open spec fn round_trip_sell(
    bought: SwapEffect,
    config: Config,
    token_type: u8,
    user: Pubkey,
    later_slot: u64,
) -> Result<SwapEffect, PredictionMarketError> {
    bought.market.swap(
        config,
        bought.receipt.token_amount,
        1,
        token_type,
        0,
        user,
        bought.user,
        later_slot,
    )
}

/// What the rounding of the buy of a round trip hands the trader, in
/// collateral.
pub open spec fn round_trip_gain(market: MarketView, token_type: u8, bought: SwapEffect) -> int {
    rounding_gain(
        market.real_token(token_type) as int,
        market.total_sol(token_type),
        bought.receipt.net_amount as int,
    )
}

/// A round trip releases, before the fees of the sale, what entered the
/// pool plus the rounding gain of the buy; so the trader gets back the
/// amount paid, plus that gain, less the fees of both trades.
pub proof fn law_round_trip_exact(
    market: MarketView,
    config: Config,
    amount: u64,
    token_type: u8,
    user: Pubkey,
    info: UserInfo,
    current_slot: u64,
    later_slot: u64,
)
    requires
        round_trip_buy(market, config, amount, token_type, user, info, current_slot) matches Ok(
            bought,
        ) && round_trip_sell(bought, config, token_type, user, later_slot) is Ok,
    ensures
        round_trip_buy(market, config, amount, token_type, user, info, current_slot) matches Ok(
            bought,
        ) ==> (round_trip_sell(bought, config, token_type, user, later_slot) matches Ok(sold) ==> {
            &&& 0 <= round_trip_gain(market, token_type, bought)
            &&& sold.receipt.sol_amount == bought.receipt.net_amount + round_trip_gain(
                market,
                token_type,
                bought,
            )
            &&& sold.receipt.net_amount == amount + round_trip_gain(market, token_type, bought)
                - fees_paid(bought.receipt) - fees_paid(sold.receipt)
        }),
{
    let bought = round_trip_buy(market, config, amount, token_type, user, info, current_slot)->Ok_0;
    let net = bought.receipt.net_amount;
    let real_token = market.real_token(token_type) as int;
    let total_sol = market.total_sol(token_type);
    lemma_buy_within_reserve(real_token, total_sol, net as int);
    assert(bought.receipt.token_amount > 0);
    assert(real_token > 0);
    lemma_round_trip(real_token, total_sol, net as int);
    assert(bought.market.real_token(token_type) == real_token - bought.receipt.token_amount);
    assert(bought.market.total_sol(token_type) == total_sol + net);
    lemma_sell_within_total(
        bought.market.real_token(token_type) as int,
        bought.market.total_sol(token_type),
        bought.receipt.token_amount as int,
    );
}

/// Buying for `amount` collateral and selling at once the very tokens
/// received returns at most `amount`, wherever the fees of the two trades
/// cover the rounding gain of the buy.
pub proof fn law_round_trip(
    market: MarketView,
    config: Config,
    amount: u64,
    token_type: u8,
    user: Pubkey,
    info: UserInfo,
    current_slot: u64,
    later_slot: u64,
)
    requires
        round_trip_buy(market, config, amount, token_type, user, info, current_slot) matches Ok(
            bought,
        ) && (round_trip_sell(bought, config, token_type, user, later_slot) matches Ok(sold)
            && round_trip_gain(market, token_type, bought) <= fees_paid(bought.receipt) + fees_paid(
            sold.receipt,
        )),
    ensures
        round_trip_buy(market, config, amount, token_type, user, info, current_slot) matches Ok(
            bought,
        ) ==> (round_trip_sell(bought, config, token_type, user, later_slot) matches Ok(sold)
            ==> sold.receipt.net_amount <= amount),
{
    law_round_trip_exact(market, config, amount, token_type, user, info, current_slot, later_slot);
}

/// Where the rounding gain of the buy exceeds the fees of the two trades,
/// the same round trip returns more than `amount`.
pub proof fn law_round_trip_beyond_fees(
    market: MarketView,
    config: Config,
    amount: u64,
    token_type: u8,
    user: Pubkey,
    info: UserInfo,
    current_slot: u64,
    later_slot: u64,
)
    requires
        round_trip_buy(market, config, amount, token_type, user, info, current_slot) matches Ok(
            bought,
        ) && (round_trip_sell(bought, config, token_type, user, later_slot) matches Ok(sold)
            && round_trip_gain(market, token_type, bought) > fees_paid(bought.receipt) + fees_paid(
            sold.receipt,
        )),
    ensures
        round_trip_buy(market, config, amount, token_type, user, info, current_slot) matches Ok(
            bought,
        ) ==> (round_trip_sell(bought, config, token_type, user, later_slot) matches Ok(sold)
            ==> sold.receipt.net_amount > amount),
{
    law_round_trip_exact(market, config, amount, token_type, user, info, current_slot, later_slot);
}

} // verus!
