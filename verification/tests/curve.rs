use prediction_market::pubkey::Pubkey;
use prediction_market::state::market::{BuyResult, Market, MarketAccount, SellResult};

fn key(tag: u8) -> Pubkey {
    Pubkey::new_from_array([tag; 32])
}

fn market() -> Market {
    Market {
        yes_token_mint: key(1),
        no_token_mint: key(2),
        creator: key(3),
        initial_yes_token_reserves: 1_000_000,
        real_yes_token_reserves: 500_000,
        real_yes_sol_reserves: 2_000,
        token_yes_total_supply: 1_000_000,
        initial_no_token_reserves: 1_000_000,
        real_no_token_reserves: 400_000,
        real_no_sol_reserves: 10_000,
        token_no_total_supply: 1_000_000,
        virtual_sol_reserves: 0,
        is_completed: false,
        start_slot: None,
        ending_slot: None,
        lps: Vec::new(),
        total_lp_amount: 0,
    }
}

#[test]
fn buy_quote_follows_the_constant_product() {
    // 500_000 * 2_000 / 3_000 = 333_333 tokens stay in the pool.
    let quote = market().get_tokens_for_buy_sol(1_000, 0);
    assert_eq!(
        quote,
        Some(BuyResult {
            token_amount: 166_667,
            change_amount: 1_000,
            current_yes_reserves: 2_000,
            current_no_reserves: 10_000,
            new_yes_reserves: 3_000,
            new_no_reserves: 10_000,
        })
    );
}

#[test]
fn sell_quote_follows_the_constant_product() {
    // 400_000 * 10_000 / 500_000 = 8_000 collateral stays in the pool.
    let quote = market().get_tokens_for_sell_sol(100_000, 1);
    assert_eq!(
        quote,
        Some(SellResult {
            token_amount: 100_000,
            change_amount: 2_000,
            current_yes_reserves: 2_000,
            current_no_reserves: 10_000,
            new_yes_reserves: 2_000,
            new_no_reserves: 8_000,
        })
    );
}

#[test]
fn quotes_count_the_virtual_offset() {
    let mut m = market();
    m.virtual_sol_reserves = 4_000;
    m.real_yes_sol_reserves = 6_000;
    m.real_yes_token_reserves = 600_000;
    // (4_000 + 6_000) * 600_000 / 15_000 = 400_000 tokens stay.
    let quote = m.get_tokens_for_buy_sol(5_000, 0).unwrap();
    assert_eq!(quote.token_amount, 200_000);
    assert_eq!(quote.new_yes_reserves, 11_000);
    assert_eq!(quote.new_no_reserves, 10_000);
}

#[test]
fn quotes_do_not_change_the_market() {
    let m = market();
    let before = m.clone();
    let _ = m.get_tokens_for_buy_sol(1_000, 0);
    let _ = m.get_tokens_for_sell_sol(1_000, 1);
    let _ = m.price_sell(1_000, 0);
    assert_eq!(m, before);
}

#[test]
fn every_selector_but_zero_names_no() {
    let m = market();
    assert_eq!(m.get_tokens_for_buy_sol(1_000, 7), m.get_tokens_for_buy_sol(1_000, 1));
    assert_eq!(m.get_tokens_for_sell_sol(1_000, 255), m.get_tokens_for_sell_sol(1_000, 1));
    assert_eq!(m.real_sol_reserves(9), 10_000);
    assert_eq!(m.real_token_reserves(9), 400_000);
    assert_eq!(m.real_sol_reserves(0), 2_000);
    assert_eq!(m.real_token_reserves(0), 500_000);
}

#[test]
fn buying_with_nothing_has_no_price() {
    assert_eq!(market().get_tokens_for_buy_sol(0, 0), None);
    assert_eq!(market().get_tokens_for_buy_sol(0, 1), None);
}

#[test]
fn buying_beyond_64_bits_of_collateral_has_no_price() {
    let mut m = market();
    m.virtual_sol_reserves = u64::MAX - 10;
    m.real_yes_sol_reserves = 5;
    assert_eq!(m.get_tokens_for_buy_sol(6, 0), None);
    let quote = m.get_tokens_for_buy_sol(5, 0).unwrap();
    assert_eq!(quote.new_yes_reserves, 10);
    // 500_000 * (2^64 - 6) / (2^64 - 1) rounds down to 499_999.
    assert_eq!(quote.token_amount, 1);
}

#[test]
fn an_empty_curve_gives_all_its_tokens_for_any_payment() {
    let mut m = market();
    m.real_yes_sol_reserves = 0;
    let quote = m.get_tokens_for_buy_sol(1, 0).unwrap();
    assert_eq!(quote.token_amount, 500_000);
}

#[test]
fn selling_nothing_has_no_price() {
    assert_eq!(market().get_tokens_for_sell_sol(0, 0), None);
    assert_eq!(market().price_sell(0, 0), None);
}

#[test]
fn selling_beyond_the_token_limit_has_no_price() {
    let m = market();
    assert_eq!(m.get_tokens_for_sell_sol(500_001, 0), None);
    assert_eq!(m.price_sell(500_001, 0), None);
    assert!(m.get_tokens_for_sell_sol(500_000, 0).is_some());
}

#[test]
fn selling_for_more_than_the_pool_holds_has_no_quote() {
    let mut m = market();
    m.virtual_sol_reserves = 100;
    m.real_yes_sol_reserves = 1;
    m.real_yes_token_reserves = 10;
    // 10 * 101 / 20 = 50 stays on the curve, 51 would leave it.
    assert_eq!(m.price_sell(10, 0), Some(51));
    assert_eq!(m.get_tokens_for_sell_sol(10, 0), None);
}

#[test]
fn selling_on_a_curve_beyond_64_bits_has_no_price() {
    let mut m = market();
    m.virtual_sol_reserves = u64::MAX;
    m.real_yes_sol_reserves = 1;
    assert_eq!(m.price_sell(10, 0), None);
    assert_eq!(m.get_tokens_for_sell_sol(10, 0), None);
}

#[test]
fn apply_buy_moves_the_reserves() {
    let mut m = market();
    let quote = m.apply_buy(1_000, 0).unwrap();
    assert_eq!(quote.token_amount, 166_667);
    assert_eq!(m.real_yes_sol_reserves, 3_000);
    assert_eq!(m.real_yes_token_reserves, 333_333);
    assert_eq!(m.real_no_sol_reserves, 10_000);
    assert_eq!(m.real_no_token_reserves, 400_000);
}

#[test]
fn apply_sell_moves_the_reserves() {
    let mut m = market();
    let quote = m.apply_sell(100_000, 1).unwrap();
    assert_eq!(quote.change_amount, 2_000);
    assert_eq!(m.real_no_sol_reserves, 8_000);
    assert_eq!(m.real_no_token_reserves, 500_000);
    assert_eq!(m.real_yes_sol_reserves, 2_000);
    assert_eq!(m.real_yes_token_reserves, 500_000);
}

#[test]
fn apply_without_a_price_changes_nothing() {
    let mut m = market();
    let before = m.clone();
    assert_eq!(m.apply_buy(0, 0), None);
    assert_eq!(m.apply_sell(0, 1), None);
    assert_eq!(m.apply_sell(700_000, 1), None);
    assert_eq!(m, before);
}

#[test]
fn apply_returns_what_the_quote_said() {
    let mut m = market();
    let quoted = m.get_tokens_for_buy_sol(777, 1);
    assert_eq!(m.apply_buy(777, 1), quoted);
    let quoted = m.get_tokens_for_sell_sol(12_345, 0);
    assert_eq!(m.apply_sell(12_345, 0), quoted);
}

#[test]
fn the_product_never_grows_along_the_curve() {
    let mut m = market();
    let product = |m: &Market, yes: bool| -> u128 {
        if yes {
            m.real_yes_token_reserves as u128
                * (m.virtual_sol_reserves as u128 + m.real_yes_sol_reserves as u128)
        } else {
            m.real_no_token_reserves as u128
                * (m.virtual_sol_reserves as u128 + m.real_no_sol_reserves as u128)
        }
    };
    let mut yes = product(&m, true);
    let mut no = product(&m, false);
    let steps: [(bool, u64, u8); 8] = [
        (true, 1_000, 0),
        (false, 3_333, 0),
        (true, 17, 1),
        (false, 99_999, 1),
        (true, 123_456, 0),
        (false, 1, 0),
        (true, 1, 1),
        (false, 54_321, 1),
    ];
    for (is_buy, amount, token_type) in steps {
        if is_buy {
            m.apply_buy(amount, token_type);
        } else {
            m.apply_sell(amount, token_type);
        }
        assert!(product(&m, true) <= yes);
        assert!(product(&m, false) <= no);
        yes = product(&m, true);
        no = product(&m, false);
    }
}
