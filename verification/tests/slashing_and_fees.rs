use prism_vault::decimal::Decimal;
use prism_vault::msg::{InstantiateMsg, VaultError};
use prism_vault::vault::Vault;

fn vault_with_fee(fee: Decimal, threshold: Decimal) -> Vault {
    Vault::instantiate(
        "owner".to_string(),
        InstantiateMsg {
            epoch_period: 30,
            underlying_coin_denom: "uluna".to_string(),
            unbonding_period: 210,
            peg_recovery_fee: fee,
            er_threshold: threshold,
            validator: "val1".to_string(),
        },
    )
    .unwrap()
}

fn user() -> String {
    "alice".to_string()
}

#[test]
fn slashing_lowers_the_bonded_total_and_the_rate() {
    let mut v = vault_with_fee(Decimal::zero(), Decimal::one());
    v.bond(100, &None, 0, 0).unwrap();
    assert_eq!(v.check_slashing(Some(90), 5, 100), Ok(10));
    assert_eq!(v.state.total_bond_amount, 90);
    assert_eq!(v.state.prev_vault_balance, 90);
    assert_eq!(v.state.exchange_rate, Decimal::percent(90));
    assert_eq!(v.state.last_index_modification, 5);

    assert_eq!(v.unbond(&user(), 50, 100, 10, 100), Ok(45));
    assert_eq!(v.current_batch.requested_with_fee, 45);
    assert_eq!(v.state.exchange_rate.atomics, 947_368_421_052_631_578);

    v.advance_batches(40, None, 50);
    assert_eq!(v.history.len(), 1);
    assert_eq!(v.history[0].applied_exchange_rate.atomics, 947_368_421_052_631_578);
    assert_eq!(v.history[0].applied_exchange_rate, v.state.exchange_rate);
    assert!(v.history[0].applied_exchange_rate.is_below(&Decimal::one()));
    assert_eq!(v.history[0].amount, 45);
}

#[test]
fn slashing_check_without_a_loss_changes_nothing() {
    let mut v = vault_with_fee(Decimal::zero(), Decimal::one());
    v.bond(100, &None, 0, 0).unwrap();
    let before = v.clone();
    assert_eq!(v.check_slashing(Some(100), 5, 100), Ok(0));
    assert_eq!(v, before);
    assert_eq!(v.check_slashing(Some(150), 5, 100), Ok(0));
    assert_eq!(v, before);
}

#[test]
fn slashing_check_needs_a_balance() {
    let mut v = vault_with_fee(Decimal::zero(), Decimal::one());
    v.bond(100, &None, 0, 0).unwrap();
    let before = v.clone();
    assert_eq!(v.check_slashing(None, 5, 100), Err(VaultError::SlashingCorrectionFailed));
    assert_eq!(v, before);
    assert_eq!(v.check_slashing(Some(1), 5, u128::MAX), Err(VaultError::InvalidAmount));
    assert_eq!(v, before);
    assert_eq!(v.check_slashing(Some(1), 5, 1_000_000_000_000_000_000), Ok(99));
    assert_eq!(v.state.exchange_rate.atomics, 1);
}

#[test]
fn slashing_check_refuses_a_supply_that_overflows() {
    let mut v = vault_with_fee(Decimal::zero(), Decimal::one());
    v.bond(100, &None, 0, 0).unwrap();
    v.unbond(&user(), 10, 100, 1, 100).unwrap();
    let before = v.clone();
    assert_eq!(v.check_slashing(Some(50), 5, u128::MAX), Err(VaultError::InvalidAmount));
    assert_eq!(v, before);
}

#[test]
fn slashing_after_close_lowers_the_withdraw_rate() {
    let mut v = vault_with_fee(Decimal::zero(), Decimal::one());
    v.bond(1000, &None, 0, 0).unwrap();
    v.unbond(&user(), 400, 1000, 1, 1000).unwrap();
    v.advance_batches(40, None, 600);
    assert_eq!(v.history[0].applied_exchange_rate, Decimal::one());
    assert_eq!(v.check_slashing(Some(500), 50, 600), Ok(500));
    assert_eq!(v.state.exchange_rate, Decimal::percent(50));

    assert_eq!(v.advance_batches(300, Some(1000), 600).released, 1);
    assert_eq!(v.history[0].withdraw_rate, Decimal::percent(50));
    assert_eq!(v.history[0].applied_exchange_rate, Decimal::one());
    assert_eq!(v.history[0].amount, 400);
    assert_eq!(v.state.total_bond_amount, 300);
    assert_eq!(v.state.actual_unbonded_amount, 200);
    assert_eq!(v.withdraw_unbonded(&user()), Ok(200));
}

#[test]
fn recovery_fee_applies_below_the_threshold() {
    let half_percent = Decimal { atomics: 5_000_000_000_000_000 };
    let mut v = vault_with_fee(half_percent, Decimal::one());
    v.bond(1_000_000, &None, 0, 0).unwrap();
    v.check_slashing(Some(900_000), 1, 1_000_000).unwrap();
    assert_eq!(v.unbond(&user(), 500_000, 1_000_000, 2, 1_000_000), Ok(450_000));
    v.advance_batches(40, None, 500_000);
    assert_eq!(v.advance_batches(300, Some(1_000_000), 500_000).released, 1);
    assert_eq!(v.history[0].withdraw_rate.atomics, 947_368_421_052_631_578);
    assert_eq!(v.state.total_bond_amount, 450_000);
    assert_eq!(v.state.exchange_rate, Decimal::percent(90));
    assert_eq!(v.settle_request(0, 500_000), Ok(471_316));
    assert_eq!(v.withdraw_unbonded(&user()), Ok(471_316));
}

#[test]
fn recovery_fee_does_not_apply_at_the_threshold() {
    let half_percent = Decimal { atomics: 5_000_000_000_000_000 };
    let mut v = vault_with_fee(half_percent, Decimal::one());
    v.bond(1_000_000, &None, 0, 0).unwrap();
    v.unbond(&user(), 500_000, 1_000_000, 2, 1_000_000).unwrap();
    v.advance_batches(40, None, 500_000);
    v.advance_batches(300, Some(1_000_000), 500_000);
    assert_eq!(v.withdraw_unbonded(&user()), Ok(500_000));
}

#[test]
fn withdrawal_refuses_a_payment_that_overflows() {
    let mut v = vault_with_fee(Decimal::zero(), Decimal::one());
    v.bond(2, &None, 0, 0).unwrap();
    v.unbond(&user(), 1, 2, 1, 2).unwrap();
    v.advance_batches(40, None, 1);
    v.advance_batches(300, Some(10), 1);
    assert!(v.history[0].released);
    v.requests[0].amount = u128::MAX;
    v.requests.push(prism_vault::vault::UnbondEntry {
        user: user(),
        batch_id: 0,
        amount: 1,
    });
    let before = v.clone();
    assert_eq!(v.withdraw_unbonded(&user()), Err(VaultError::InvalidAmount));
    assert_eq!(v, before);
}
