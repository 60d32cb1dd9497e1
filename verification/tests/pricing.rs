use pumpfun::trade::common::{
    calculate_with_slippage_buy, calculate_with_slippage_sell, get_buy_amount_with_slippage,
    get_buy_price, TradeInfo,
};

fn curve(virtual_sol: u64, virtual_token: u64, real_token: u64) -> TradeInfo {
    TradeInfo {
        virtual_sol_reserves: virtual_sol,
        virtual_token_reserves: virtual_token,
        real_token_reserves: real_token,
    }
}

#[test]
fn buy_price_of_one_sol_on_a_fresh_curve() {
    let info = curve(30_000_000_000, 1_000_000_000_000, 800_000_000_000);
    // 1e12 - (3e22 / 3.1e10 + 1) = 1e12 - 967_741_935_484
    assert_eq!(get_buy_price(1_000_000_000, &info), 32_258_064_516);
}

#[test]
fn buy_price_of_nothing_is_nothing() {
    assert_eq!(get_buy_price(0, &curve(30_000_000_000, 1_000_000_000_000, 800_000_000_000)), 0);
    assert_eq!(get_buy_price(0, &curve(0, 0, 0)), 0);
    assert_eq!(get_buy_price(0, &curve(u64::MAX, u64::MAX, u64::MAX)), 0);
}

#[test]
fn buy_price_is_clamped_to_the_real_reserve() {
    let info = curve(30_000_000_000, 1_000_000_000_000, 1_000);
    assert_eq!(get_buy_price(1_000_000_000, &info), 1_000);
    let info = curve(1, u64::MAX, u64::MAX);
    assert_eq!(get_buy_price(u64::MAX, &info), u64::MAX - 1);
}

#[test]
fn buy_price_never_decreases_with_the_amount() {
    let info = curve(30_000_000_000, 1_073_000_000_000_000, 793_100_000_000_000);
    let mut last = 0u64;
    let mut amount = 0u64;
    while amount < 200_000_000_000 {
        let tokens = get_buy_price(amount, &info);
        assert!(tokens >= last);
        assert!(tokens <= info.real_token_reserves);
        last = tokens;
        amount += 1_234_567_891;
    }
}

#[test]
fn slippage_bounds_are_exact() {
    assert_eq!(calculate_with_slippage_buy(1_000_000, 500), 1_050_000);
    assert_eq!(calculate_with_slippage_sell(1_000_000, 500), 950_000);
    assert_eq!(calculate_with_slippage_buy(999, 1), 999);
    assert_eq!(calculate_with_slippage_sell(999, 1), 999);
    assert_eq!(calculate_with_slippage_buy(0, 10_000), 0);
    assert_eq!(calculate_with_slippage_sell(7, 10_000), 0);
    // the product is taken in double width
    assert_eq!(calculate_with_slippage_buy(u64::MAX / 2, 10_000), u64::MAX - 1);
}

#[test]
fn slippage_bounds_are_not_inverses() {
    let up = calculate_with_slippage_buy(1_000_000, 1_000);
    assert_eq!(up, 1_100_000);
    assert_eq!(calculate_with_slippage_sell(up, 1_000), 990_000);
}

#[test]
fn default_slippage_is_ten_percent() {
    assert_eq!(get_buy_amount_with_slippage(2_000_000, None), 2_200_000);
    assert_eq!(get_buy_amount_with_slippage(2_000_000, Some(0)), 2_000_000);
    assert_eq!(get_buy_amount_with_slippage(2_000_000, Some(250)), 2_050_000);
}
