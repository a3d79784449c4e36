use prediction_market::errors::PredictionMarketError;
use prediction_market::instructions::market::swap::Swap;
use prediction_market::pubkey::Pubkey;
use prediction_market::state::config::Config;
use prediction_market::state::market::{
    CreateMarketParams, Market, MarketAccount, SwapReceipt, UserInfo,
};

fn key(tag: u8) -> Pubkey {
    Pubkey::new_from_array([tag; 32])
}

fn config() -> Config {
    Config {
        authority: key(10),
        pending_authority: Pubkey::default(),
        team_wallet: key(11),
        platform_buy_fee: 100,
        platform_sell_fee: 200,
        lp_buy_fee: 50,
        lp_sell_fee: 100,
        token_supply_config: 1_000_000,
        token_decimals_config: 6,
        initial_real_token_reserves_config: 1_000_000,
        min_sol_liquidity: 0,
        initialized: true,
    }
}

fn free_config() -> Config {
    Config { platform_buy_fee: 0, platform_sell_fee: 0, lp_buy_fee: 0, lp_sell_fee: 0, ..config() }
}

fn params(virtual_sol_reserves: u64) -> CreateMarketParams {
    CreateMarketParams {
        yes_symbol: String::from("YES"),
        yes_uri: String::from("https://example.org/yes.json"),
        start_slot: None,
        ending_slot: None,
        virtual_sol_reserves,
    }
}

fn created(virtual_sol_reserves: u64) -> Market {
    Market::create(key(3), key(1), key(2), &config(), &params(virtual_sol_reserves), 100).unwrap()
}

fn funded() -> Market {
    Market {
        yes_token_mint: key(1),
        no_token_mint: key(2),
        creator: key(3),
        initial_yes_token_reserves: 1_000_000,
        real_yes_token_reserves: 500_000,
        real_yes_sol_reserves: 2_000,
        token_yes_total_supply: 1_000_000,
        initial_no_token_reserves: 1_000_000,
        real_no_token_reserves: 400_000,
        real_no_sol_reserves: 10_000,
        token_no_total_supply: 1_000_000,
        virtual_sol_reserves: 0,
        is_completed: false,
        start_slot: None,
        ending_slot: None,
        lps: Vec::new(),
        total_lp_amount: 0,
    }
}

fn blank() -> UserInfo {
    UserInfo {
        user: Pubkey::default(),
        yes_balance: 0,
        no_balance: 0,
        is_lp: false,
        is_initialized: false,
    }
}

fn holder(yes_balance: u64, no_balance: u64) -> UserInfo {
    UserInfo { user: key(7), yes_balance, no_balance, is_lp: false, is_initialized: true }
}

fn copy_of(ix: &Swap) -> Swap {
    Swap {
        global_config: ix.global_config,
        team_wallet: ix.team_wallet,
        market: ix.market.clone(),
        user_info: ix.user_info,
        user: ix.user,
    }
}

fn product(m: &Market, yes: bool) -> u128 {
    if yes {
        m.real_yes_token_reserves as u128
            * (m.virtual_sol_reserves as u128 + m.real_yes_sol_reserves as u128)
    } else {
        m.real_no_token_reserves as u128
            * (m.virtual_sol_reserves as u128 + m.real_no_sol_reserves as u128)
    }
}

#[test]
fn first_buy_on_a_new_market_puts_the_net_amount_into_the_pool() {
    let mut m = created(0);
    assert_eq!(m.initial_yes_token_reserves, 1_000_000);
    assert_eq!(m.real_yes_token_reserves, 1_000_000);
    assert_eq!(m.virtual_sol_reserves, 0);
    let mut info = blank();
    let receipt = m.swap(&config(), 1_000, 0, 0, 0, &key(7), &mut info, 100).unwrap();
    let fees = receipt.platform_fee + receipt.lp_fee;
    assert_eq!(receipt.platform_fee, 10);
    assert_eq!(receipt.lp_fee, 5);
    assert_eq!(receipt.net_amount, 1_000 - fees);
    assert_eq!(m.real_yes_sol_reserves, 1_000 - fees);
    assert_eq!(m.real_no_sol_reserves, 0);
    // Nothing stood against the tokens, so the curve's product was zero and
    // stays zero: the pool keeps 0 * 0 / 985 tokens.
    assert_eq!(receipt.token_amount, 1_000_000);
    assert_eq!(m.real_yes_token_reserves, 0);
    assert_eq!(info.yes_balance, 1_000_000);
}

#[test]
fn first_buy_with_a_virtual_offset_yields_fewer_tokens_than_collateral() {
    let mut m = created(1_000_000_000);
    let mut info = blank();
    let receipt = m.swap(&config(), 1_000, 0, 0, 0, &key(7), &mut info, 100).unwrap();
    // 1_000_000 * 10^9 / (10^9 + 985) rounds down to 999_999.
    assert_eq!(receipt.token_amount, 1);
    assert!(receipt.token_amount < 1_000);
    assert_eq!(m.real_yes_sol_reserves, 1_000 - (receipt.platform_fee + receipt.lp_fee));
    assert_eq!(m.real_yes_sol_reserves, 985);
    assert_eq!(m.real_yes_token_reserves, 999_999);
}

#[test]
fn buy_commits_reserves_and_position() {
    let mut m = funded();
    let mut info = holder(5, 6);
    let receipt = m.swap(&config(), 1_000, 0, 0, 164_992, &key(7), &mut info, 0).unwrap();
    assert_eq!(
        receipt,
        SwapReceipt {
            is_buy: true,
            is_yes: true,
            sol_amount: 1_000,
            token_amount: 164_992,
            platform_fee: 10,
            lp_fee: 5,
            net_amount: 985,
        }
    );
    assert_eq!(m.real_yes_sol_reserves, 2_985);
    assert_eq!(m.real_yes_token_reserves, 335_008);
    assert_eq!(m.real_no_sol_reserves, 10_000);
    assert_eq!(m.real_no_token_reserves, 400_000);
    assert_eq!(info, holder(164_997, 6));
}

#[test]
fn sell_commits_reserves_and_position() {
    let mut m = funded();
    let mut info = holder(5, 150_000);
    let receipt = m.swap(&config(), 100_000, 1, 1, 1_940, &key(7), &mut info, 0).unwrap();
    assert_eq!(
        receipt,
        SwapReceipt {
            is_buy: false,
            is_yes: false,
            sol_amount: 2_000,
            token_amount: 100_000,
            platform_fee: 40,
            lp_fee: 20,
            net_amount: 1_940,
        }
    );
    assert_eq!(m.real_no_sol_reserves, 8_000);
    assert_eq!(m.real_no_token_reserves, 500_000);
    assert_eq!(m.real_yes_sol_reserves, 2_000);
    assert_eq!(m.real_yes_token_reserves, 500_000);
    assert_eq!(info, holder(5, 50_000));
}

#[test]
fn every_direction_but_zero_sells() {
    let mut a = funded();
    let mut b = funded();
    let mut info_a = holder(0, 150_000);
    let mut info_b = holder(0, 150_000);
    let one = a.swap(&config(), 100_000, 1, 1, 0, &key(7), &mut info_a, 0);
    let other = b.swap(&config(), 100_000, 200, 1, 0, &key(7), &mut info_b, 0);
    assert_eq!(one, other);
    assert_eq!(a, b);
    assert_eq!(info_a, info_b);
}

#[test]
fn a_floor_above_the_quote_fails_and_changes_nothing() {
    let mut m = funded();
    let before = m.clone();
    let mut info = holder(5, 150_000);
    let buy = m.swap(&config(), 1_000, 0, 0, 164_993, &key(7), &mut info, 0);
    assert_eq!(buy, Err(PredictionMarketError::ReturnAmountTooSmall));
    assert_eq!(m, before);
    assert_eq!(info, holder(5, 150_000));
    let sell = m.swap(&config(), 100_000, 1, 1, 1_941, &key(7), &mut info, 0);
    assert_eq!(sell, Err(PredictionMarketError::ReturnAmountTooSmall));
    assert_eq!(m, before);
    assert_eq!(info, holder(5, 150_000));
}

#[test]
fn a_failed_swap_does_not_set_up_the_record() {
    let mut m = funded();
    let before = m.clone();
    let mut info = blank();
    let out = m.swap(&config(), 1_000, 0, 0, u64::MAX, &key(7), &mut info, 0);
    assert_eq!(out, Err(PredictionMarketError::ReturnAmountTooSmall));
    assert_eq!(info, blank());
    assert_eq!(m, before);
}

#[test]
fn a_swap_sets_up_a_record_that_is_new() {
    let mut m = funded();
    let mut info = blank();
    info.yes_balance = 99;
    m.swap(&config(), 1_000, 0, 0, 0, &key(7), &mut info, 0).unwrap();
    assert_eq!(info, holder(164_992, 0));
}

#[test]
fn a_swap_leaves_the_owner_of_a_record_as_it_is() {
    let mut m = funded();
    let mut info = holder(1, 2);
    m.swap(&config(), 1_000, 0, 1, 0, &key(8), &mut info, 0).unwrap();
    assert_eq!(info.user, key(7));
    assert!(info.no_balance > 2);
    assert_eq!(info.yes_balance, 1);
}

#[test]
fn a_completed_market_takes_no_swap() {
    let mut m = funded();
    m.is_completed = true;
    m.ending_slot = Some(5);
    let before = m.clone();
    let mut info = holder(5, 150_000);
    let out = m.swap(&config(), 1_000, 0, 0, 0, &key(7), &mut info, 10);
    assert_eq!(out, Err(PredictionMarketError::CurveAlreadyCompleted));
    assert_eq!(m, before);
    assert_eq!(info, holder(5, 150_000));
}

#[test]
fn a_market_past_its_last_slot_takes_no_swap() {
    let mut m = funded();
    m.ending_slot = Some(50);
    let before = m.clone();
    let mut info = holder(5, 150_000);
    let out = m.swap(&config(), 1_000, 0, 0, 0, &key(7), &mut info, 51);
    assert_eq!(out, Err(PredictionMarketError::InvalidEndTime));
    assert_eq!(m, before);
    assert!(m.swap(&config(), 1_000, 0, 0, 0, &key(7), &mut info, 50).is_ok());
}

#[test]
fn a_market_takes_swaps_before_its_first_slot() {
    let mut m = funded();
    m.start_slot = Some(1_000);
    let mut info = holder(0, 0);
    assert!(m.swap(&config(), 1_000, 0, 0, 0, &key(7), &mut info, 10).is_ok());
}

#[test]
fn swapping_nothing_is_an_arithmetic_error() {
    let mut m = funded();
    let before = m.clone();
    let mut info = holder(5, 150_000);
    assert_eq!(
        m.swap(&config(), 0, 0, 0, 0, &key(7), &mut info, 0),
        Err(PredictionMarketError::ArithmeticError)
    );
    assert_eq!(
        m.swap(&config(), 0, 1, 0, 0, &key(7), &mut info, 0),
        Err(PredictionMarketError::ArithmeticError)
    );
    assert_eq!(m, before);
}

#[test]
fn a_buy_that_fees_eat_up_is_an_arithmetic_error() {
    let mut m = funded();
    let mut info = holder(0, 0);
    let all = Config { platform_buy_fee: 10_000, lp_buy_fee: 0, ..config() };
    assert_eq!(
        m.swap(&all, 1_000, 0, 0, 0, &key(7), &mut info, 0),
        Err(PredictionMarketError::ArithmeticError)
    );
    let more = Config { platform_buy_fee: 10_000, lp_buy_fee: 10_000, ..config() };
    assert_eq!(
        m.swap(&more, 1_000, 0, 0, 0, &key(7), &mut info, 0),
        Err(PredictionMarketError::ArithmeticError)
    );
}

#[test]
fn a_balance_that_would_overflow_is_an_arithmetic_error() {
    let mut m = funded();
    let before = m.clone();
    let mut info = holder(u64::MAX - 164_991, 0);
    assert_eq!(
        m.swap(&config(), 1_000, 0, 0, 0, &key(7), &mut info, 0),
        Err(PredictionMarketError::ArithmeticError)
    );
    assert_eq!(m, before);
    let mut info = holder(u64::MAX - 164_992, 0);
    assert!(m.swap(&config(), 1_000, 0, 0, 0, &key(7), &mut info, 0).is_ok());
    assert_eq!(info.yes_balance, u64::MAX);
}

#[test]
fn selling_more_than_one_holds_fails() {
    let mut m = funded();
    let before = m.clone();
    let mut info = holder(5, 99_999);
    let out = m.swap(&config(), 100_000, 1, 1, 0, &key(7), &mut info, 0);
    assert_eq!(out, Err(PredictionMarketError::InsufficientTokens));
    assert_eq!(m, before);
    assert_eq!(info, holder(5, 99_999));
}

#[test]
fn selling_for_more_than_the_pool_holds_fails() {
    let mut m = funded();
    m.virtual_sol_reserves = 100;
    m.real_yes_sol_reserves = 1;
    m.real_yes_token_reserves = 10;
    let before = m.clone();
    let mut info = holder(10, 0);
    let out = m.swap(&free_config(), 10, 1, 0, 0, &key(7), &mut info, 0);
    assert_eq!(out, Err(PredictionMarketError::InsufficientSol));
    assert_eq!(m, before);
    assert_eq!(info, holder(10, 0));
}

#[test]
fn the_floor_is_checked_before_balance_and_pool() {
    let mut m = funded();
    let mut info = holder(0, 0);
    let out = m.swap(&config(), 100_000, 1, 1, 1_941, &key(7), &mut info, 0);
    assert_eq!(out, Err(PredictionMarketError::ReturnAmountTooSmall));
    let out = m.swap(&config(), 100_000, 1, 1, 1_940, &key(7), &mut info, 0);
    assert_eq!(out, Err(PredictionMarketError::InsufficientTokens));
}

#[test]
fn swaps_never_raise_the_product() {
    let mut m = funded();
    m.virtual_sol_reserves = 777;
    let mut info = holder(300_000, 300_000);
    let steps: [(u64, u8, u8); 10] = [
        (1_000, 0, 0),
        (50_000, 1, 0),
        (9, 0, 1),
        (123_456, 1, 1),
        (400, 0, 0),
        (1, 1, 0),
        (1, 0, 1),
        (77_777, 1, 1),
        (15_000, 0, 1),
        (250_000, 1, 0),
    ];
    for (amount, direction, token_type) in steps {
        let yes = product(&m, true);
        let no = product(&m, false);
        let before = m.clone();
        match m.swap(&config(), amount, direction, token_type, 0, &key(7), &mut info, 0) {
            Ok(_) => {
                assert!(product(&m, true) <= yes);
                assert!(product(&m, false) <= no);
                assert!(m.real_yes_token_reserves <= m.initial_yes_token_reserves);
                assert!(m.real_no_token_reserves <= m.initial_no_token_reserves);
            }
            Err(_) => assert_eq!(m, before),
        }
    }
}

#[test]
fn a_round_trip_with_fees_returns_no_more_than_was_paid() {
    let mut m = funded();
    m.real_yes_token_reserves = 1_000_000;
    m.real_yes_sol_reserves = 50_000;
    let mut info = holder(0, 0);
    let bought = m.swap(&config(), 10_000, 0, 0, 0, &key(7), &mut info, 0).unwrap();
    assert_eq!(bought.net_amount, 9_850);
    assert_eq!(bought.token_amount, 164_579);
    let sold = m.swap(&config(), bought.token_amount, 1, 0, 0, &key(7), &mut info, 0).unwrap();
    // The curve releases what entered it and one unit of rounding.
    assert_eq!(sold.sol_amount, 9_851);
    assert_eq!(sold.platform_fee, 197);
    assert_eq!(sold.lp_fee, 98);
    assert_eq!(sold.net_amount, 9_556);
    assert!(sold.net_amount <= 10_000);
    assert_eq!(info.yes_balance, 0);
    assert_eq!(m.real_yes_token_reserves, 1_000_000);
    assert_eq!(m.real_yes_sol_reserves, 49_999);
}

#[test]
fn a_round_trip_without_fees_can_gain_from_rounding() {
    let mut m = funded();
    m.real_yes_token_reserves = 10;
    m.real_yes_sol_reserves = 10;
    let mut info = holder(0, 0);
    let bought = m.swap(&free_config(), 1, 0, 0, 0, &key(7), &mut info, 0).unwrap();
    assert_eq!(bought.token_amount, 1);
    let sold = m.swap(&free_config(), 1, 1, 0, 0, &key(7), &mut info, 0).unwrap();
    assert_eq!(sold.net_amount, 2);
    assert_eq!(m.real_yes_sol_reserves, 9);
    assert_eq!(m.real_yes_token_reserves, 10);
}

#[test]
fn the_instruction_checks_the_team_wallet() {
    let mut ix = Swap {
        global_config: config(),
        team_wallet: key(12),
        market: funded(),
        user_info: blank(),
        user: key(7),
    };
    let before = copy_of(&ix);
    assert_eq!(ix.handler(1_000, 0, 0, 0, 0), Err(PredictionMarketError::IncorrectAuthority));
    assert_eq!(ix, before);
}

#[test]
fn the_instruction_swaps_as_the_market_does() {
    let mut ix = Swap {
        global_config: config(),
        team_wallet: key(11),
        market: funded(),
        user_info: blank(),
        user: key(7),
    };
    let mut m = funded();
    let mut info = blank();
    let expected = m.swap(&config(), 1_000, 0, 0, 0, &key(7), &mut info, 3);
    assert_eq!(ix.handler(1_000, 0, 0, 0, 3), expected);
    assert_eq!(ix.market, m);
    assert_eq!(ix.user_info, info);
    assert_eq!(ix.user_info, holder(164_992, 0));
    assert_eq!(ix.global_config, config());
}
