use sandwich_bot::amm::{bracket_amounts, estimate_profit, mul_div, price_impact_ppm};

const SOL: u64 = 1_000_000_000;

#[test]
fn price_impact_is_zero_without_a_trade() {
    assert_eq!(price_impact_ppm(1000 * SOL, 0), 0);
}

#[test]
fn price_impact_grows_with_the_trade() {
    let small = price_impact_ppm(1000 * SOL, SOL);
    let medium = price_impact_ppm(1000 * SOL, 50 * SOL);
    let large = price_impact_ppm(1000 * SOL, 100 * SOL);
    assert_eq!(small, 1997);
    assert_eq!(medium, 92970);
    assert!(small < medium && medium < large);
}

#[test]
fn price_impact_exact_values() {
    // Doubling the input reserve quarters the price: a 75 % impact.
    assert_eq!(price_impact_ppm(1000, 1000), 750_000);
    assert_eq!(price_impact_ppm(100, 1), 19703);
    assert_eq!(price_impact_ppm(u64::MAX, u64::MAX), 750_000);
    assert_eq!(price_impact_ppm(0, 5), 1_000_000);
}

#[test]
fn wide_products_are_divided_exactly() {
    assert_eq!(mul_div(6, 7, 10), 4);
    assert_eq!(mul_div(u128::MAX - 1, u128::MAX, u128::MAX), u128::MAX - 1);
    assert_eq!(mul_div(1 << 100, 1 << 100, (1 << 101) + 1), (1u128 << 99) - 1);
    assert_eq!(mul_div(0, 12345, 7), 0);
}

#[test]
fn front_run_is_capped_by_the_multiplier_and_the_position() {
    // A 9.3 % impact reaches the cap of twice the target; the position limit binds.
    assert_eq!(bracket_amounts(1000 * SOL, 50 * SOL, SOL), (SOL, SOL));
    // A 0.1997 % impact: fifty times the exact impact, not the rounded one.
    assert_eq!(bracket_amounts(1000 * SOL, SOL, 1000 * SOL), (99_850_199, 99_850_199));
    assert_eq!(bracket_amounts(1000 * SOL, 5 * SOL, 1000 * SOL), (2_481_374_223, 2_481_374_223));
    assert_eq!(bracket_amounts(1000 * SOL, 50 * SOL, 1000 * SOL), (100 * SOL, 100 * SOL));
    assert_eq!(bracket_amounts(7, u64::MAX - 7, 7), (7, 7));
    assert_eq!(bracket_amounts(1000 * SOL, 0, SOL), (0, 0));
}

#[test]
fn estimated_profit_of_a_large_target_bracket() {
    // 1051 - 1000 * 1051 * 1001 / 1002051 - 1 - 0.002 SOL = 0.10034010045 SOL.
    assert_eq!(estimate_profit(1000 * SOL, SOL, 50 * SOL), 100_340_100);
    assert_eq!(estimate_profit(1000 * SOL, SOL / 2, 50 * SOL), 49_209_996);
}

#[test]
fn round_trip_without_target_earns_nothing() {
    // Selling straight back returns the outlay; the fees make the net negative.
    assert_eq!(estimate_profit(1000 * SOL, SOL, 0), 0);
    assert_eq!(estimate_profit(7, 5, 0), 0);
}
