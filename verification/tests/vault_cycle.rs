use prism_vault::batches::AdvanceReport;
use prism_vault::bonding::BondReceipt;
use prism_vault::decimal::Decimal;
use prism_vault::msg::{InstantiateMsg, UnbondHistory, VaultError};
use prism_vault::vault::{Batch, UnbondEntry, Vault};

fn fresh() -> Vault {
    Vault::instantiate(
        "owner".to_string(),
        InstantiateMsg {
            epoch_period: 30,
            underlying_coin_denom: "uluna".to_string(),
            unbonding_period: 210,
            peg_recovery_fee: Decimal { atomics: 5_000_000_000_000_000 },
            er_threshold: Decimal::one(),
            validator: "val1".to_string(),
        },
    )
    .unwrap()
}

fn alice() -> String {
    "alice".to_string()
}

fn bob() -> String {
    "bob".to_string()
}

#[test]
fn instantiate_starts_empty_at_rate_one() {
    let v = fresh();
    assert_eq!(v.config.creator, "owner");
    assert_eq!(v.config.cluna_contract, None);
    assert_eq!(v.params.epoch_period, 30);
    assert_eq!(v.params.unbonding_period, 210);
    assert_eq!(v.params.underlying_coin_denom, "uluna");
    assert_eq!(v.params.validator, "val1");
    assert_eq!(v.state.exchange_rate, Decimal::one());
    assert_eq!(v.state.total_bond_amount, 0);
    assert_eq!(v.state.last_processed_batch, 0);
    assert_eq!(v.current_batch, Batch { id: 0, requested_with_fee: 0, created: None });
    assert_eq!(v.registry.validators.len(), 1);
    assert_eq!(v.registry.validators[0].address, "val1");
    assert_eq!(v.registry.validators[0].delegated, 0);
    assert!(v.history.is_empty());
    assert!(v.requests.is_empty());
}

#[test]
fn instantiate_refuses_a_fee_above_one() {
    let r = Vault::instantiate(
        "owner".to_string(),
        InstantiateMsg {
            epoch_period: 30,
            underlying_coin_denom: "uluna".to_string(),
            unbonding_period: 210,
            peg_recovery_fee: Decimal { atomics: 1_000_000_000_000_000_001 },
            er_threshold: Decimal::one(),
            validator: "val1".to_string(),
        },
    );
    assert_eq!(r, Err(VaultError::InvalidAmount));
}

#[test]
fn bond_unbond_release_withdraw_at_rate_one() {
    let mut v = fresh();

    let receipt = v.bond(100, &None, 1000, 0).unwrap();
    assert_eq!(receipt, BondReceipt { target: 0, minted: 100 });
    assert_eq!(v.state.total_bond_amount, 100);
    assert_eq!(v.state.exchange_rate, Decimal::one());
    assert_eq!(v.state.last_index_modification, 1000);
    assert_eq!(v.registry.validators[0].delegated, 100);

    assert_eq!(v.unbond(&alice(), 100, 100, 1010, 100), Ok(100));
    assert_eq!(v.current_batch, Batch { id: 0, requested_with_fee: 100, created: Some(1010) });
    assert_eq!(v.state.exchange_rate, Decimal::one());
    assert_eq!(v.state.total_bond_amount, 100);
    assert_eq!(
        v.requests,
        vec![UnbondEntry { user: alice(), batch_id: 0, amount: 100 }]
    );

    assert_eq!(
        v.advance_batches(1039, Some(100), 0),
        AdvanceReport { closed: None, released: 0 }
    );
    assert!(v.history.is_empty());

    assert_eq!(
        v.advance_batches(1040, Some(100), 0),
        AdvanceReport { closed: Some(100), released: 0 }
    );
    assert_eq!(
        v.history,
        vec![UnbondHistory {
            batch_id: 0,
            time: 1040,
            amount: 100,
            applied_exchange_rate: Decimal::one(),
            withdraw_rate: Decimal::one(),
            released: false,
        }]
    );
    assert_eq!(v.current_batch, Batch { id: 1, requested_with_fee: 0, created: None });
    assert_eq!(v.state.last_unbonded_time, 1040);
    assert_eq!(v.registry.validators[0].delegated, 0);
    assert_eq!(v.withdraw_unbonded(&alice()), Err(VaultError::NothingToWithdraw));
    assert_eq!(v.settle_request(0, 100), Err(VaultError::BatchNotReleased));
    assert_eq!(v.settle_request(5, 100), Err(VaultError::BatchNotReleased));

    assert_eq!(v.advance_batches(1249, Some(100), 0).released, 0);
    assert_eq!(v.advance_batches(1250, Some(99), 0).released, 0);
    assert_eq!(v.advance_batches(1250, None, 0).released, 0);
    assert_eq!(
        v.advance_batches(1250, Some(100), 0),
        AdvanceReport { closed: None, released: 1 }
    );
    assert!(v.history[0].released);
    assert_eq!(v.history[0].withdraw_rate, Decimal::one());
    assert_eq!(v.history[0].amount, 100);
    assert_eq!(v.state.total_bond_amount, 0);
    assert_eq!(v.state.actual_unbonded_amount, 100);
    assert_eq!(v.state.exchange_rate, Decimal::one());
    assert_eq!(v.state.last_processed_batch, 0);

    assert_eq!(v.settle_request(0, 100), Ok(100));
    assert_eq!(v.withdraw_unbonded(&alice()), Ok(100));
    assert!(v.requests.is_empty());
    assert_eq!(v.state.actual_unbonded_amount, 0);
}

#[test]
fn withdrawing_twice_pays_once() {
    let mut v = fresh();
    v.bond(100, &None, 1000, 0).unwrap();
    v.unbond(&alice(), 60, 100, 1010, 100).unwrap();
    v.advance_batches(1040, Some(100), 40);
    v.unbond(&alice(), 40, 40, 1050, 40).unwrap();
    v.advance_batches(1250, Some(100), 0);
    assert_eq!(v.withdraw_unbonded(&alice()), Ok(60));
    assert_eq!(v.requests, vec![UnbondEntry { user: alice(), batch_id: 1, amount: 40 }]);
    let after_first = v.clone();
    assert_eq!(v.withdraw_unbonded(&alice()), Err(VaultError::NothingToWithdraw));
    assert_eq!(v, after_first);
}

#[test]
fn withdrawal_leaves_other_users_alone() {
    let mut v = fresh();
    v.bond(300, &None, 1000, 0).unwrap();
    v.unbond(&alice(), 100, 100, 1010, 300).unwrap();
    v.unbond(&bob(), 50, 200, 1011, 200).unwrap();
    v.unbond(&alice(), 20, 100, 1012, 150).unwrap();
    assert_eq!(
        v.requests,
        vec![
            UnbondEntry { user: alice(), batch_id: 0, amount: 120 },
            UnbondEntry { user: bob(), batch_id: 0, amount: 50 },
        ]
    );
    assert_eq!(v.current_batch.requested_with_fee, 170);
    v.advance_batches(1040, Some(300), 130);
    v.advance_batches(1250, Some(300), 130);
    assert_eq!(v.withdraw_unbonded(&"carol".to_string()), Err(VaultError::NothingToWithdraw));
    assert_eq!(v.withdraw_unbonded(&bob()), Ok(50));
    assert_eq!(v.requests, vec![UnbondEntry { user: alice(), batch_id: 0, amount: 120 }]);
    assert_eq!(v.state.total_bond_amount, 130);
    assert_eq!(v.withdraw_unbonded(&alice()), Ok(120));
    assert!(v.requests.is_empty());
}

#[test]
fn batches_are_released_oldest_first() {
    let mut v = fresh();
    v.bond(1000, &None, 0, 0).unwrap();
    v.unbond(&alice(), 500, 1000, 10, 1000).unwrap();
    v.advance_batches(40, None, 500);
    v.unbond(&bob(), 100, 100, 50, 500).unwrap();
    v.advance_batches(80, None, 400);
    assert_eq!(v.history.len(), 2);
    assert_eq!(v.history[0].batch_id, 0);
    assert_eq!(v.history[1].batch_id, 1);
    assert_eq!(v.pending_closed, 600);

    // Both have matured, but the balance covers only the younger one.
    let report = v.advance_batches(1000, Some(100), 400);
    assert_eq!(report.released, 0);
    assert!(!v.history[0].released);
    assert!(!v.history[1].released);

    let report = v.advance_batches(1000, Some(500), 400);
    assert_eq!(report.released, 1);
    assert!(v.history[0].released);
    assert!(!v.history[1].released);
    assert_eq!(v.state.last_processed_batch, 0);
    assert_eq!(v.state.total_bond_amount, 500);
    assert_eq!(v.pending_closed, 100);

    let report = v.advance_batches(1000, Some(600), 400);
    assert_eq!(report.released, 1);
    assert!(v.history[1].released);
    assert_eq!(v.state.last_processed_batch, 1);
    assert_eq!(v.state.total_bond_amount, 400);
    assert_eq!(v.state.exchange_rate, Decimal::one());
}

#[test]
fn several_batches_release_in_one_advance() {
    let mut v = fresh();
    v.bond(1000, &None, 0, 0).unwrap();
    v.unbond(&alice(), 500, 1000, 10, 1000).unwrap();
    v.advance_batches(40, None, 500);
    v.unbond(&bob(), 100, 100, 50, 500).unwrap();
    v.advance_batches(80, None, 400);
    let report = v.advance_batches(1000, Some(600), 400);
    assert_eq!(report, AdvanceReport { closed: None, released: 2 });
    assert_eq!(v.state.last_processed_batch, 1);
    assert_eq!(v.state.actual_unbonded_amount, 600);
}

#[test]
fn advancing_twice_changes_nothing_more() {
    let mut v = fresh();
    v.bond(1000, &None, 0, 0).unwrap();
    v.unbond(&alice(), 500, 1000, 10, 1000).unwrap();
    v.advance_batches(40, None, 500);
    v.unbond(&bob(), 100, 100, 50, 500).unwrap();
    v.advance_batches(1000, Some(550), 400);
    let once = v.clone();
    assert_eq!(
        v.advance_batches(1000, Some(550), 400),
        AdvanceReport { closed: None, released: 0 }
    );
    assert_eq!(v, once);
}

#[test]
fn an_empty_batch_is_never_closed() {
    let mut v = fresh();
    assert_eq!(
        v.advance_batches(1_000_000, Some(0), 0),
        AdvanceReport { closed: None, released: 0 }
    );
    assert!(v.history.is_empty());
    assert_eq!(v.current_batch.id, 0);
}

#[test]
fn bonded_total_follows_bonds_and_releases() {
    let mut v = fresh();
    v.bond(700, &None, 0, 0).unwrap();
    v.bond(300, &None, 1, 700).unwrap();
    assert_eq!(v.state.total_bond_amount, 1000);
    v.unbond(&alice(), 250, 700, 2, 1000).unwrap();
    assert_eq!(v.state.total_bond_amount, 1000);
    v.advance_batches(40, Some(1000), 750);
    assert_eq!(v.state.total_bond_amount, 1000);
    v.advance_batches(400, Some(1000), 750);
    assert_eq!(v.state.total_bond_amount, 750);
    v.withdraw_unbonded(&alice()).unwrap();
    assert_eq!(v.state.total_bond_amount, 750);
    v.bond(50, &None, 500, 750).unwrap();
    assert_eq!(v.state.total_bond_amount, 800);
}

#[test]
fn bond_refusals() {
    let mut v = fresh();
    let before = v.clone();
    assert_eq!(v.bond(0, &None, 0, 0), Err(VaultError::ZeroAmount));
    assert_eq!(v.bond(u128::MAX, &None, 0, 1), Err(VaultError::InvalidAmount));
    assert_eq!(v, before);
    assert_eq!(v.deregister_validator(&"owner".to_string(), &"val1".to_string()), Ok(0));
    assert_eq!(v.bond(5, &None, 0, 0), Err(VaultError::NoValidatorsRegistered));
    assert_eq!(v.bond(0, &None, 0, 0), Err(VaultError::ZeroAmount));
}

#[test]
fn bond_delegates_to_the_hint_or_the_least_delegated() {
    let mut v = fresh();
    v.register_validator(&"owner".to_string(), "val2".to_string()).unwrap();
    assert_eq!(v.bond(10, &Some("val2".to_string()), 0, 0).unwrap().target, 1);
    assert_eq!(v.bond(10, &Some("nobody".to_string()), 0, 10).unwrap().target, 0);
    assert_eq!(v.bond(10, &None, 0, 20).unwrap().target, 0);
    assert_eq!(v.bond(10, &None, 0, 30).unwrap().target, 1);
    assert_eq!(v.registry.validators[0].delegated, 20);
    assert_eq!(v.registry.validators[1].delegated, 20);
    assert_eq!(v.registry.total_delegated, 40);
}

#[test]
fn bond_mints_at_the_current_rate() {
    let mut v = fresh();
    v.bond(100, &None, 0, 0).unwrap();
    assert_eq!(v.check_slashing(Some(90), 1, 100), Ok(10));
    assert_eq!(v.state.exchange_rate, Decimal::percent(90));
    let receipt = v.bond(50, &None, 2, 100).unwrap();
    assert_eq!(receipt.minted, 45);
    assert_eq!(v.state.total_bond_amount, 140);
    assert_eq!(v.state.exchange_rate, Decimal::from_ratio(140, 145));
}

#[test]
fn unbond_refusals() {
    let mut v = fresh();
    v.bond(100, &None, 0, 0).unwrap();
    let before = v.clone();
    assert_eq!(v.unbond(&alice(), 0, 100, 1, 100), Err(VaultError::InvalidAmount));
    assert_eq!(v.unbond(&alice(), 101, 100, 1, 100), Err(VaultError::InsufficientBalance));
    assert_eq!(v.unbond(&alice(), 100, 100, 1, 99), Err(VaultError::InvalidAmount));
    assert_eq!(v, before);
}
