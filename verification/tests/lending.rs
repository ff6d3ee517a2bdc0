use propchain::lending::{div_i128, InterestParams, LendingContract};

#[test]
fn uninitialized_pool() {
    let pool = LendingContract::new();
    assert_eq!(pool.params, None);
    assert_eq!(pool.total_supply, None);
    assert_eq!(pool.total_borrowed, None);
    assert_eq!(pool.get_utilization(), 0);
}

#[test]
fn init_sets_params_and_zero_totals() {
    let mut pool = LendingContract::new();
    pool.update_supply(500);
    pool.init(200, 1_000, 2_000);
    assert_eq!(pool.params, Some(InterestParams { base_rate: 200, slope: 1_000, max_rate: 2_000 }));
    assert_eq!(pool.total_supply, Some(0));
    assert_eq!(pool.total_borrowed, Some(0));
    // zero utilization: the base rate
    assert_eq!(pool.get_interest_rate(), 200);
}

#[test]
fn updates_accumulate() {
    let mut pool = LendingContract::new();
    pool.update_supply(1_000);
    pool.update_supply(500);
    pool.update_borrowed(300);
    pool.update_borrowed(-100);
    assert_eq!(pool.total_supply, Some(1_500));
    assert_eq!(pool.total_borrowed, Some(200));
}

#[test]
fn utilization_in_basis_points() {
    let mut pool = LendingContract::new();
    pool.init(200, 1_000, 5_000);
    pool.update_supply(3_000);
    pool.update_borrowed(1_000);
    // 1 000 * 10 000 / 3 000 = 3 333 (rounded toward zero)
    assert_eq!(pool.get_utilization(), 3_333);
    // 200 + 3 333 * 1 000 / 10 000 = 200 + 333
    assert_eq!(pool.get_interest_rate(), 533);
}

#[test]
fn rate_is_capped() {
    let mut pool = LendingContract::new();
    pool.init(200, 10_000, 900);
    pool.update_supply(1_000);
    pool.update_borrowed(1_000);
    assert_eq!(pool.get_utilization(), 10_000);
    assert_eq!(pool.get_interest_rate(), 900);
}

#[test]
fn negative_values_round_toward_zero() {
    let mut pool = LendingContract::new();
    pool.init(0, 1, 100);
    pool.update_supply(3);
    pool.update_borrowed(-1);
    // -10 000 / 3 = -3 333
    assert_eq!(pool.get_utilization(), -3_333);
    // -3 333 * 1 / 10 000 = 0 toward zero
    assert_eq!(pool.get_interest_rate(), 0);
    assert_eq!(div_i128(-7, 2), -3);
    assert_eq!(div_i128(7, -2), -3);
    assert_eq!(div_i128(-7, -2), 3);
}
