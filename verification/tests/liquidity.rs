use prediction_market::errors::PredictionMarketError;
use prediction_market::instructions::market::add_liquidity::AddLiquidity;
use prediction_market::instructions::market::withdraw_liquidity::WithdrawLiquidity;
use prediction_market::pubkey::Pubkey;
use prediction_market::state::config::Config;
use prediction_market::state::market::{LpInfo, Market, MarketAccount, UserInfo};

fn key(tag: u8) -> Pubkey {
    Pubkey::new_from_array([tag; 32])
}

fn config() -> Config {
    Config {
        authority: key(10),
        pending_authority: Pubkey::default(),
        team_wallet: key(11),
        platform_buy_fee: 100,
        platform_sell_fee: 200,
        lp_buy_fee: 50,
        lp_sell_fee: 100,
        token_supply_config: 1_000_000,
        token_decimals_config: 6,
        initial_real_token_reserves_config: 1_000_000,
        min_sol_liquidity: 0,
        initialized: true,
    }
}

fn market() -> Market {
    Market {
        yes_token_mint: key(1),
        no_token_mint: key(2),
        creator: key(3),
        initial_yes_token_reserves: 1_000_000,
        real_yes_token_reserves: 1_000_000,
        real_yes_sol_reserves: 0,
        token_yes_total_supply: 1_000_000,
        initial_no_token_reserves: 1_000_000,
        real_no_token_reserves: 1_000_000,
        real_no_sol_reserves: 0,
        token_no_total_supply: 1_000_000,
        virtual_sol_reserves: 0,
        is_completed: false,
        start_slot: None,
        ending_slot: None,
        lps: Vec::new(),
        total_lp_amount: 0,
    }
}

fn blank() -> UserInfo {
    UserInfo {
        user: Pubkey::default(),
        yes_balance: 0,
        no_balance: 0,
        is_lp: false,
        is_initialized: false,
    }
}

fn stakes(m: &Market) -> u128 {
    m.lps.iter().map(|lp| lp.sol_amount as u128).sum()
}

#[test]
fn a_first_deposit_opens_a_record() {
    let mut m = market();
    let mut info = blank();
    assert_eq!(m.add_liquidity(&key(7), 1_000, &mut info), Ok(()));
    assert_eq!(m.lps, vec![LpInfo { user: key(7), sol_amount: 1_000 }]);
    assert_eq!(m.total_lp_amount, 1_000);
    assert_eq!(m.real_yes_sol_reserves, 500);
    assert_eq!(m.real_no_sol_reserves, 500);
    assert_eq!(
        info,
        UserInfo { user: key(7), yes_balance: 0, no_balance: 0, is_lp: true, is_initialized: true }
    );
}

#[test]
fn a_later_deposit_adds_to_the_record() {
    let mut m = market();
    let mut seven = blank();
    let mut eight = blank();
    m.add_liquidity(&key(7), 1_000, &mut seven).unwrap();
    m.add_liquidity(&key(8), 40, &mut eight).unwrap();
    m.add_liquidity(&key(7), 250, &mut seven).unwrap();
    assert_eq!(
        m.lps,
        vec![
            LpInfo { user: key(7), sol_amount: 1_250 },
            LpInfo { user: key(8), sol_amount: 40 }
        ]
    );
    assert_eq!(m.total_lp_amount, 1_290);
    assert_eq!(m.real_yes_sol_reserves, 645);
    assert_eq!(m.real_no_sol_reserves, 645);
}

#[test]
fn an_odd_deposit_gives_each_pool_half_rounded_down() {
    let mut m = market();
    let mut info = blank();
    m.add_liquidity(&key(7), 3, &mut info).unwrap();
    assert_eq!(m.real_yes_sol_reserves, 1);
    assert_eq!(m.real_no_sol_reserves, 1);
    assert_eq!(m.total_lp_amount, 3);
    m.add_liquidity(&key(7), 7, &mut info).unwrap();
    assert_eq!(m.real_yes_sol_reserves, 4);
    assert_eq!(m.real_no_sol_reserves, 4);
    m.add_liquidity(&key(7), 1, &mut info).unwrap();
    assert_eq!(m.real_yes_sol_reserves, 4);
    assert_eq!(m.real_no_sol_reserves, 4);
    assert_eq!(m.total_lp_amount, 11);
    assert_eq!(m.lps, vec![LpInfo { user: key(7), sol_amount: 11 }]);
}

#[test]
fn an_odd_withdrawal_takes_half_rounded_down_from_each_pool() {
    let mut m = market();
    let mut info = blank();
    m.add_liquidity(&key(7), 100, &mut info).unwrap();
    assert_eq!(m.withdraw_liquidity(&key(7), 7), Ok(()));
    assert_eq!(m.real_yes_sol_reserves, 47);
    assert_eq!(m.real_no_sol_reserves, 47);
    assert_eq!(m.withdraw_liquidity(&key(7), 1), Ok(()));
    assert_eq!(m.real_yes_sol_reserves, 47);
    assert_eq!(m.real_no_sol_reserves, 47);
    assert_eq!(m.total_lp_amount, 92);
    assert_eq!(m.lps, vec![LpInfo { user: key(7), sol_amount: 92 }]);
}

#[test]
fn a_deposit_keeps_what_a_record_holds() {
    let mut m = market();
    let mut info = UserInfo {
        user: key(7),
        yes_balance: 11,
        no_balance: 22,
        is_lp: false,
        is_initialized: true,
    };
    m.add_liquidity(&key(7), 10, &mut info).unwrap();
    assert_eq!(
        info,
        UserInfo {
            user: key(7),
            yes_balance: 11,
            no_balance: 22,
            is_lp: true,
            is_initialized: true
        }
    );
}

#[test]
fn a_deposit_leaves_tokens_and_lifecycle_alone() {
    let mut m = market();
    m.ending_slot = Some(9);
    let mut info = blank();
    m.add_liquidity(&key(7), 10, &mut info).unwrap();
    let mut expected = market();
    expected.ending_slot = Some(9);
    expected.lps = vec![LpInfo { user: key(7), sol_amount: 10 }];
    expected.total_lp_amount = 10;
    expected.real_yes_sol_reserves = 5;
    expected.real_no_sol_reserves = 5;
    assert_eq!(m, expected);
}

#[test]
fn a_deposit_of_nothing_fails() {
    let mut m = market();
    let mut info = blank();
    assert_eq!(
        m.add_liquidity(&key(7), 0, &mut info),
        Err(PredictionMarketError::WITHDRAWLIQUIDITYSOLAMOUNTERROR)
    );
    assert_eq!(m, market());
    assert_eq!(info, blank());
}

#[test]
fn a_completed_market_takes_no_deposit() {
    let mut m = market();
    m.is_completed = true;
    let before = m.clone();
    let mut info = blank();
    assert_eq!(
        m.add_liquidity(&key(7), 0, &mut info),
        Err(PredictionMarketError::MarketIsCompleted)
    );
    assert_eq!(
        m.add_liquidity(&key(7), 10, &mut info),
        Err(PredictionMarketError::MarketIsCompleted)
    );
    assert_eq!(m, before);
    assert_eq!(info, blank());
}

#[test]
fn a_deposit_that_would_overflow_fails() {
    let mut m = market();
    let mut info = blank();
    m.add_liquidity(&key(7), u64::MAX - 1, &mut info).unwrap();
    let before = m.clone();
    assert_eq!(
        m.add_liquidity(&key(8), 2, &mut info),
        Err(PredictionMarketError::ArithmeticError)
    );
    assert_eq!(m, before);
    assert_eq!(m.add_liquidity(&key(8), 1, &mut info), Ok(()));
    assert_eq!(m.total_lp_amount, u64::MAX);

    let mut m = market();
    m.real_no_sol_reserves = u64::MAX - 1;
    assert_eq!(
        m.add_liquidity(&key(8), 4, &mut info),
        Err(PredictionMarketError::ArithmeticError)
    );
    assert_eq!(m.add_liquidity(&key(8), 3, &mut info), Ok(()));
    assert_eq!(m.real_no_sol_reserves, u64::MAX);
    assert_eq!(m.real_yes_sol_reserves, 1);

    let mut m = market();
    m.real_yes_sol_reserves = u64::MAX;
    assert_eq!(
        m.add_liquidity(&key(8), 2, &mut info),
        Err(PredictionMarketError::ArithmeticError)
    );
    assert_eq!(m.add_liquidity(&key(8), 1, &mut info), Ok(()));
}

#[test]
fn withdrawing_more_than_was_contributed_fails() {
    let mut m = market();
    let mut info = blank();
    m.add_liquidity(&key(7), 1_000, &mut info).unwrap();
    m.add_liquidity(&key(8), 5_000, &mut info).unwrap();
    let before = m.clone();
    assert_eq!(
        m.withdraw_liquidity(&key(7), 1_001),
        Err(PredictionMarketError::WITHDRAWLIQUIDITYSOLAMOUNTERROR)
    );
    assert_eq!(m.total_lp_amount, 6_000);
    assert_eq!(m, before);
}

#[test]
fn withdrawing_nothing_fails() {
    let mut m = market();
    let mut info = blank();
    m.add_liquidity(&key(7), 1_000, &mut info).unwrap();
    let before = m.clone();
    assert_eq!(
        m.withdraw_liquidity(&key(7), 0),
        Err(PredictionMarketError::WITHDRAWLIQUIDITYSOLAMOUNTERROR)
    );
    assert_eq!(m, before);
}

#[test]
fn withdrawing_without_a_record_fails() {
    let mut m = market();
    let mut info = blank();
    assert_eq!(m.withdraw_liquidity(&key(7), 1), Err(PredictionMarketError::WITHDRAWNOTLPERROR));
    assert_eq!(m.withdraw_liquidity(&key(7), 0), Err(PredictionMarketError::WITHDRAWNOTLPERROR));
    m.add_liquidity(&key(7), 1_000, &mut info).unwrap();
    let before = m.clone();
    assert_eq!(m.withdraw_liquidity(&key(8), 1), Err(PredictionMarketError::WITHDRAWNOTLPERROR));
    assert_eq!(m, before);
}

#[test]
fn a_withdrawal_takes_from_stake_total_and_pools() {
    let mut m = market();
    let mut info = blank();
    m.add_liquidity(&key(7), 1_000, &mut info).unwrap();
    m.add_liquidity(&key(8), 5_001, &mut info).unwrap();
    assert_eq!(m.real_yes_sol_reserves, 3_000);
    assert_eq!(m.real_no_sol_reserves, 3_000);
    assert_eq!(m.withdraw_liquidity(&key(8), 301), Ok(()));
    assert_eq!(
        m.lps,
        vec![
            LpInfo { user: key(7), sol_amount: 1_000 },
            LpInfo { user: key(8), sol_amount: 4_700 }
        ]
    );
    assert_eq!(m.total_lp_amount, 5_700);
    assert_eq!(m.real_yes_sol_reserves, 2_850);
    assert_eq!(m.real_no_sol_reserves, 2_850);
}

#[test]
fn a_full_withdrawal_leaves_an_empty_record() {
    let mut m = market();
    let mut info = blank();
    m.add_liquidity(&key(7), 1_001, &mut info).unwrap();
    assert_eq!(m.withdraw_liquidity(&key(7), 1_001), Ok(()));
    assert_eq!(m.lps, vec![LpInfo { user: key(7), sol_amount: 0 }]);
    assert_eq!(m.total_lp_amount, 0);
    assert_eq!(m.real_yes_sol_reserves, 0);
    assert_eq!(m.real_no_sol_reserves, 0);
    assert_eq!(
        m.withdraw_liquidity(&key(7), 1),
        Err(PredictionMarketError::WITHDRAWLIQUIDITYSOLAMOUNTERROR)
    );
    m.add_liquidity(&key(7), 5, &mut info).unwrap();
    assert_eq!(m.lps, vec![LpInfo { user: key(7), sol_amount: 5 }]);
}

#[test]
fn a_withdrawal_the_pools_cannot_pay_fails() {
    let mut m = market();
    let mut info = blank();
    m.add_liquidity(&key(7), 1_000, &mut info).unwrap();
    m.real_yes_sol_reserves = 499;
    let before = m.clone();
    assert_eq!(m.withdraw_liquidity(&key(7), 1_000), Err(PredictionMarketError::InsufficientSol));
    assert_eq!(m, before);
    assert_eq!(m.withdraw_liquidity(&key(7), 998), Ok(()));
    assert_eq!(m.real_yes_sol_reserves, 0);
    assert_eq!(m.real_no_sol_reserves, 1);
}

#[test]
fn a_completed_market_still_pays_providers_back() {
    let mut m = market();
    let mut info = blank();
    m.add_liquidity(&key(7), 1_000, &mut info).unwrap();
    m.is_completed = true;
    assert_eq!(m.withdraw_liquidity(&key(7), 400), Ok(()));
    assert_eq!(m.total_lp_amount, 600);
}

#[test]
fn stakes_always_add_up_to_the_total() {
    let mut m = market();
    let mut info = blank();
    let steps: [(bool, u8, u64); 12] = [
        (true, 7, 1_000),
        (true, 8, 33),
        (false, 7, 400),
        (false, 9, 1),
        (true, 9, 5),
        (false, 8, 34),
        (false, 8, 33),
        (true, 7, 0),
        (false, 7, 600),
        (false, 7, 1),
        (true, 8, 77),
        (false, 9, 5),
    ];
    for (deposit, who, amount) in steps {
        let before = m.clone();
        let out = if deposit {
            m.add_liquidity(&key(who), amount, &mut info)
        } else {
            m.withdraw_liquidity(&key(who), amount)
        };
        if out.is_err() {
            assert_eq!(m, before);
        }
        assert_eq!(stakes(&m), m.total_lp_amount as u128);
    }
    assert_eq!(m.total_lp_amount, 77);
}

#[test]
fn find_provider_gives_the_position_of_the_record() {
    let mut m = market();
    let mut info = blank();
    assert_eq!(m.find_provider(&key(7)), 0);
    m.add_liquidity(&key(7), 1, &mut info).unwrap();
    m.add_liquidity(&key(8), 1, &mut info).unwrap();
    m.add_liquidity(&key(9), 1, &mut info).unwrap();
    assert_eq!(m.find_provider(&key(7)), 0);
    assert_eq!(m.find_provider(&key(8)), 1);
    assert_eq!(m.find_provider(&key(9)), 2);
    assert_eq!(m.find_provider(&key(1)), 3);
}

#[test]
fn the_deposit_instruction_checks_the_team_wallet() {
    let mut ix = AddLiquidity {
        global_config: config(),
        team_wallet: key(12),
        market: market(),
        user_info: blank(),
        user: key(7),
    };
    assert_eq!(ix.handler(10), Err(PredictionMarketError::IncorrectAuthority));
    assert_eq!(ix.market, market());
    assert_eq!(ix.user_info, blank());
}

#[test]
fn the_deposit_instruction_deposits_as_the_market_does() {
    let mut ix = AddLiquidity {
        global_config: config(),
        team_wallet: key(11),
        market: market(),
        user_info: blank(),
        user: key(7),
    };
    assert_eq!(ix.handler(11), Ok(()));
    let mut m = market();
    let mut info = blank();
    m.add_liquidity(&key(7), 11, &mut info).unwrap();
    assert_eq!(ix.market, m);
    assert_eq!(ix.user_info, info);
    assert_eq!(ix.handler(0), Err(PredictionMarketError::WITHDRAWLIQUIDITYSOLAMOUNTERROR));
    assert_eq!(ix.market, m);
}

#[test]
fn the_withdrawal_instruction_withdraws_as_the_market_does() {
    let mut funded = market();
    let mut info = blank();
    funded.add_liquidity(&key(7), 100, &mut info).unwrap();
    let mut ix = WithdrawLiquidity {
        global_config: config(),
        team_wallet: key(12),
        market: funded.clone(),
        user: key(7),
    };
    assert_eq!(ix.handler(10), Err(PredictionMarketError::IncorrectAuthority));
    assert_eq!(ix.market, funded);
    ix.team_wallet = key(11);
    assert_eq!(ix.handler(101), Err(PredictionMarketError::WITHDRAWLIQUIDITYSOLAMOUNTERROR));
    assert_eq!(ix.market, funded);
    assert_eq!(ix.handler(10), Ok(()));
    funded.withdraw_liquidity(&key(7), 10).unwrap();
    assert_eq!(ix.market, funded);
    assert_eq!(ix.market.total_lp_amount, 90);
}
