use prism_vault::batches::has_elapsed;
use prism_vault::decimal::Decimal;
use prism_vault::msg::InstantiateMsg;
use prism_vault::registry::Registry;
use prism_vault::vault::Vault;

fn started() -> Vault {
    let mut v = Vault::instantiate(
        "owner".to_string(),
        InstantiateMsg {
            epoch_period: 10,
            underlying_coin_denom: "uluna".to_string(),
            unbonding_period: 100,
            peg_recovery_fee: Decimal::zero(),
            er_threshold: Decimal::one(),
            validator: "val1".to_string(),
        },
    )
    .unwrap();
    v.bond(500, &None, 0, 0).unwrap();
    v
}

#[test]
fn elapsed_compares_without_overflow() {
    assert!(has_elapsed(10, 20, 10));
    assert!(!has_elapsed(10, 19, 10));
    assert!(!has_elapsed(10, 5, 0));
    assert!(has_elapsed(10, 10, 0));
    assert!(!has_elapsed(u64::MAX, u64::MAX, 1));
    assert!(!has_elapsed(1, u64::MAX, u64::MAX));
    assert!(has_elapsed(0, u64::MAX, u64::MAX));
}

#[test]
fn close_batch_waits_for_the_epoch() {
    let mut v = started();
    assert_eq!(v.close_batch(1_000), None);
    v.unbond(&"alice".to_string(), 40, 500, 5, 500).unwrap();
    assert_eq!(v.close_batch(14), None);
    assert_eq!(v.close_batch(15), Some(40));
    assert_eq!(v.close_batch(15), None);
    assert_eq!(v.history.len(), 1);
    assert_eq!(v.current_batch.id, 1);
    assert_eq!(v.pending_closed, 40);
    assert_eq!(v.registry.total_delegated, 460);
}

#[test]
fn release_next_releases_one_batch_at_a_time() {
    let mut v = started();
    v.unbond(&"alice".to_string(), 40, 500, 5, 500).unwrap();
    v.close_batch(15);
    v.unbond(&"alice".to_string(), 60, 460, 16, 460).unwrap();
    v.close_batch(26);
    assert_eq!(v.frontier(), 0);
    assert!(!v.release_next(114, Some(1_000), 400));
    assert!(v.release_next(115, Some(1_000), 400));
    assert_eq!(v.frontier(), 1);
    assert!(!v.release_next(115, Some(1_000), 400));
    assert!(!v.release_next(126, Some(99), 400));
    assert!(v.release_next(126, Some(100), 400));
    assert_eq!(v.frontier(), 2);
    assert!(!v.release_next(1_000, Some(1_000), 400));
    assert_eq!(v.state.total_bond_amount, 400);
    assert_eq!(v.pending_closed, 0);
}

#[test]
fn find_request_gives_the_slot_of_a_claim() {
    let mut v = started();
    v.unbond(&"alice".to_string(), 40, 500, 5, 500).unwrap();
    v.unbond(&"bob".to_string(), 10, 500, 6, 460).unwrap();
    assert_eq!(v.find_request(&"alice".to_string(), 0), 0);
    assert_eq!(v.find_request(&"bob".to_string(), 0), 1);
    assert_eq!(v.find_request(&"bob".to_string(), 1), 2);
    assert_eq!(v.find_request(&"carol".to_string(), 0), 2);
}

#[test]
fn set_stake_keeps_the_total_in_step() {
    let mut r = Registry::new();
    r.register("a".to_string()).unwrap();
    r.register("b".to_string()).unwrap();
    r.set_stake(1, 9);
    r.set_stake(0, 4);
    r.set_stake(1, 2);
    assert_eq!(r.total_delegated, 6);
    assert_eq!(r.validators[0].delegated, 4);
    assert_eq!(r.validators[1].delegated, 2);
    assert!(r.is_well_formed());
    r.total_delegated = 7;
    assert!(!r.is_well_formed());
}

#[test]
fn every_operation_keeps_the_vault_well_formed() {
    let mut v = started();
    assert!(v.is_well_formed());
    v.register_validator(&"owner".to_string(), "val2".to_string()).unwrap();
    v.bond(77, &Some("val2".to_string()), 1, 500).unwrap();
    assert!(v.is_well_formed());
    v.unbond(&"alice".to_string(), 40, 500, 5, 577).unwrap();
    assert!(v.is_well_formed());
    v.advance_batches(15, None, 537);
    assert!(v.is_well_formed());
    v.check_slashing(Some(500), 20, 537).unwrap();
    assert!(v.is_well_formed());
    v.advance_batches(200, Some(1_000), 537);
    assert!(v.is_well_formed());
    assert!(v.history[0].released);
    v.withdraw_unbonded(&"alice".to_string()).unwrap();
    assert!(v.is_well_formed());
    v.deregister_validator(&"owner".to_string(), &"val1".to_string()).unwrap();
    assert!(v.is_well_formed());
}
