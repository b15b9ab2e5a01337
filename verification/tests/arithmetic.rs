use prism_vault::decimal::{
    checked_multiply_ratio, mul_wide, ratio_fits_u128, Decimal, DECIMAL_FRACTIONAL,
};
use prism_vault::slashing::{expected_balance, shortfall};
use prism_vault::state::{rate_is_sound, State};

#[test]
fn wide_product_of_small_numbers() {
    assert_eq!(mul_wide(0, 0), (0, 0));
    assert_eq!(mul_wide(6, 7), (0, 42));
    assert_eq!(mul_wide(u128::MAX, 1), (0, u128::MAX));
}

#[test]
fn wide_product_of_large_numbers() {
    assert_eq!(mul_wide(u128::MAX, u128::MAX), (340282366920938463463374607431768211454, 1));
    assert_eq!(
        mul_wide(0x123456789abcdef0123456789abcdef0, 0xfedcba9876543210fedcba9876543210),
        (24090311171252216044571233735041857348, 118273748707967075257221072610506886912)
    );
    assert_eq!(mul_wide(1u128 << 64, 1u128 << 64), (1, 0));
}

#[test]
fn ratio_fits_is_exact_at_the_boundary() {
    assert!(!ratio_fits_u128(1, 1, 0));
    assert!(ratio_fits_u128(u128::MAX, u128::MAX, u128::MAX));
    assert!(ratio_fits_u128(u128::MAX, 2, 2));
    assert!(!ratio_fits_u128(u128::MAX, 2, 1));
    assert!(ratio_fits_u128(1u128 << 127, 2, 2));
    assert!(!ratio_fits_u128(1u128 << 127, 2, 1));
    assert!(ratio_fits_u128((1u128 << 127) - 1, 2, 1));
}

#[test]
fn multiply_ratio_rounds_down() {
    assert_eq!(checked_multiply_ratio(10, 1, 3), Some(3));
    assert_eq!(checked_multiply_ratio(10, 2, 3), Some(6));
    assert_eq!(checked_multiply_ratio(7, 0, 3), Some(0));
    assert_eq!(checked_multiply_ratio(u128::MAX, u128::MAX, u128::MAX), Some(u128::MAX));
    assert_eq!(checked_multiply_ratio(u128::MAX, 3, 2), None);
    assert_eq!(checked_multiply_ratio(5, 5, 0), None);
}

#[test]
fn decimal_constants() {
    assert_eq!(Decimal::one().atomics, 1_000_000_000_000_000_000);
    assert_eq!(Decimal::zero().atomics, 0);
    assert_eq!(Decimal::percent(50).atomics, 500_000_000_000_000_000);
    assert_eq!(Decimal::percent(100), Decimal::one());
    assert!(Decimal::zero().is_zero());
    assert!(!Decimal::one().is_zero());
    assert!(Decimal::percent(99).is_below(&Decimal::one()));
    assert!(!Decimal::one().is_below(&Decimal::one()));
}

#[test]
fn decimal_from_ratio_rounds_down() {
    assert_eq!(Decimal::from_ratio(1, 3).atomics, 333_333_333_333_333_333);
    assert_eq!(Decimal::from_ratio(2, 3).atomics, 666_666_666_666_666_666);
    assert_eq!(Decimal::from_ratio(7, 3).atomics, 2_333_333_333_333_333_333);
    assert_eq!(Decimal::from_ratio(5, 5), Decimal::one());
    assert_eq!(Decimal::from_ratio(0, 5), Decimal::zero());
}

#[test]
fn decimal_checked_from_ratio_refuses_what_cannot_be_represented() {
    assert_eq!(Decimal::checked_from_ratio(1, 0), None);
    assert_eq!(Decimal::checked_from_ratio(u128::MAX, 1), None);
    let largest: u128 = u128::MAX / DECIMAL_FRACTIONAL;
    assert_eq!(
        Decimal::checked_from_ratio(largest, 1),
        Some(Decimal { atomics: 340282366920938463463000000000000000000 })
    );
    assert_eq!(Decimal::checked_from_ratio(largest + 1, 1), None);
    assert_eq!(Decimal::checked_from_ratio(3, 4), Some(Decimal::percent(75)));
}

#[test]
fn decimal_mul_floor() {
    assert_eq!(Decimal::percent(90).checked_mul_floor(50), Some(45));
    assert_eq!(Decimal::from_ratio(1, 3).checked_mul_floor(10), Some(3));
    assert_eq!(Decimal::one().checked_mul_floor(u128::MAX), Some(u128::MAX));
    assert_eq!(Decimal::percent(200).checked_mul_floor(u128::MAX), None);
    assert_eq!(Decimal::zero().checked_mul_floor(u128::MAX), Some(0));
}

#[test]
fn exchange_rate_is_the_ratio_of_bonded_to_supply() {
    let mut state = State::default();
    state.total_bond_amount = 90;
    state.update_exchange_rate(60, 40);
    assert_eq!(state.exchange_rate, Decimal::percent(90));
    state.update_exchange_rate(50, 45);
    assert_eq!(state.exchange_rate.atomics, 947_368_421_052_631_578);
    assert_eq!(state.total_bond_amount, 90);
    assert_eq!(state.last_index_modification, 0);
}

#[test]
fn exchange_rate_defaults_to_one() {
    let mut state = State::default();
    assert_eq!(state.exchange_rate, Decimal::zero());
    state.update_exchange_rate(100, 25);
    assert_eq!(state.exchange_rate, Decimal::one());
    state.total_bond_amount = 77;
    state.update_exchange_rate(0, 0);
    assert_eq!(state.exchange_rate, Decimal::one());
    state.update_exchange_rate(7, 0);
    assert_eq!(state.exchange_rate, Decimal::from_ratio(77, 7));
}

#[test]
fn exchange_rate_update_is_refused_where_it_cannot_be_represented() {
    let mut state = State::default();
    state.total_bond_amount = u128::MAX;
    let before = state;
    assert!(!state.try_update_exchange_rate(1, 0));
    assert_eq!(state, before);
    assert!(!state.try_update_exchange_rate(u128::MAX, 1));
    assert_eq!(state, before);
    assert!(state.try_update_exchange_rate(u128::MAX, 0));
    assert_eq!(state.exchange_rate, Decimal::one());
}

#[test]
fn expected_balance_and_shortfall() {
    assert_eq!(expected_balance(100, 20, 30), Some(90));
    assert_eq!(expected_balance(10, 20, 30), Some(0));
    assert_eq!(expected_balance(10, 20, 31), None);
    assert_eq!(expected_balance(u128::MAX, 1, 0), None);
    assert_eq!(expected_balance(u128::MAX, 1, 1), Some(u128::MAX));
    assert_eq!(expected_balance(5, u128::MAX, 10), Some(u128::MAX - 5));
    assert_eq!(shortfall(100, 90), 10);
    assert_eq!(shortfall(100, 100), 0);
    assert_eq!(shortfall(100, 150), 0);
}

#[test]
fn a_rate_in_use_is_above_zero() {
    assert!(rate_is_sound(0, 0));
    assert!(rate_is_sound(0, 7));
    assert!(rate_is_sound(7, 0));
    assert!(rate_is_sound(1, 1_000_000_000_000_000_000));
    assert!(!rate_is_sound(1, 1_000_000_000_000_000_001));
    assert!(!rate_is_sound(u128::MAX, 1));
    assert!(rate_is_sound(u128::MAX, u128::MAX));
}

#[test]
fn exchange_rate_update_is_refused_where_the_rate_would_be_zero() {
    let mut state = State::default();
    state.total_bond_amount = 1;
    state.exchange_rate = Decimal::one();
    let before = state;
    assert!(!state.try_update_exchange_rate(2_000_000_000_000_000_000, 0));
    assert_eq!(state, before);
    assert!(!state.try_update_exchange_rate(1_000_000_000_000_000_000, 1));
    assert_eq!(state, before);
    assert!(state.try_update_exchange_rate(999_999_999_999_999_999, 1));
    assert_eq!(state.exchange_rate.atomics, 1);
    assert_eq!(state.total_bond_amount, 1);
}

#[test]
fn exchange_rate_is_above_zero_after_every_update() {
    let mut state = State::default();
    for (bonded, issued, requested) in
        [(0u128, 0u128, 0u128), (0, 5, 5), (5, 0, 0), (1, 1, 0), (3, 7, 2), (u128::MAX, u128::MAX, 0)]
    {
        state.total_bond_amount = bonded;
        assert!(state.try_update_exchange_rate(issued, requested));
        assert!(state.exchange_rate.atomics > 0);
    }
}
