use prism_vault::msg::VaultError;
use prism_vault::registry::Registry;
use prism_vault::tokens::{merge, split, Holdings};

fn names(r: &Registry) -> Vec<String> {
    r.validators.iter().map(|v| v.address.clone()).collect()
}

fn stakes(r: &Registry) -> Vec<u128> {
    r.validators.iter().map(|v| v.delegated).collect()
}

fn registry_of(entries: &[(&str, u128)]) -> Registry {
    let mut r = Registry::new();
    for (i, (name, stake)) in entries.iter().enumerate() {
        r.register(name.to_string()).unwrap();
        r.delegate(i, *stake).unwrap();
    }
    r
}

#[test]
fn split_moves_claim_into_both_parts() {
    let h = Holdings { claim: 100, yield_token: 5, principal: 7 };
    assert_eq!(split(h, 40), Ok(Holdings { claim: 60, yield_token: 45, principal: 47 }));
    assert_eq!(split(h, 100), Ok(Holdings { claim: 0, yield_token: 105, principal: 107 }));
    assert_eq!(split(h, 0), Ok(h));
}

#[test]
fn split_refuses_more_than_is_held() {
    let h = Holdings { claim: 100, yield_token: 5, principal: 7 };
    assert_eq!(split(h, 101), Err(VaultError::InsufficientBalance));
}

#[test]
fn split_refuses_overflow_of_a_part() {
    let h = Holdings { claim: 100, yield_token: u128::MAX - 1, principal: 0 };
    assert_eq!(split(h, 2), Err(VaultError::InvalidAmount));
    assert_eq!(split(h, 1), Ok(Holdings { claim: 99, yield_token: u128::MAX, principal: 1 }));
}

#[test]
fn merge_moves_both_parts_into_claim() {
    let h = Holdings { claim: 1, yield_token: 50, principal: 60 };
    assert_eq!(merge(h, 50), Ok(Holdings { claim: 51, yield_token: 0, principal: 10 }));
}

#[test]
fn merge_refuses_where_either_part_is_short() {
    let h = Holdings { claim: 1, yield_token: 50, principal: 60 };
    assert_eq!(merge(h, 51), Err(VaultError::InsufficientBalance));
    let h = Holdings { claim: 1, yield_token: 60, principal: 50 };
    assert_eq!(merge(h, 51), Err(VaultError::InsufficientBalance));
    let h = Holdings { claim: u128::MAX, yield_token: 60, principal: 50 };
    assert_eq!(merge(h, 1), Err(VaultError::InvalidAmount));
}

#[test]
fn split_then_merge_restores_the_holdings() {
    let h = Holdings { claim: 1000, yield_token: 3, principal: 9 };
    for amount in [0u128, 1, 999, 1000] {
        let parts = split(h, amount).unwrap();
        assert_eq!(merge(parts, amount), Ok(h));
    }
}

#[test]
fn register_appends_and_refuses_duplicates() {
    let mut r = Registry::new();
    assert_eq!(r.register("a".to_string()), Ok(()));
    assert_eq!(r.register("b".to_string()), Ok(()));
    assert_eq!(r.register("a".to_string()), Err(VaultError::ValidatorAlreadyWhitelisted));
    assert_eq!(names(&r), vec!["a".to_string(), "b".to_string()]);
    assert_eq!(stakes(&r), vec![0, 0]);
    assert_eq!(r.find(&"b".to_string()), Some(1));
    assert_eq!(r.find(&"c".to_string()), None);
}

#[test]
fn pick_prefers_a_whitelisted_hint() {
    let r = registry_of(&[("a", 5), ("b", 9), ("c", 5)]);
    assert_eq!(r.pick(&Some("b".to_string())), Ok(1));
    assert_eq!(r.pick(&Some("zzz".to_string())), Ok(0));
    assert_eq!(r.pick(&None), Ok(0));
}

#[test]
fn pick_takes_the_first_least_delegated() {
    let r = registry_of(&[("a", 5), ("b", 2), ("c", 2)]);
    assert_eq!(r.pick(&None), Ok(1));
    assert_eq!(r.least_delegated(), 1);
}

#[test]
fn pick_fails_on_an_empty_registry() {
    let r = Registry::new();
    assert_eq!(r.pick(&None), Err(VaultError::NoValidatorsRegistered));
    assert_eq!(r.pick(&Some("a".to_string())), Err(VaultError::NoValidatorsRegistered));
}

#[test]
fn delegate_adds_stake_and_refuses_overflow() {
    let mut r = registry_of(&[("a", 5), ("b", 2)]);
    assert_eq!(r.delegate(1, 10), Ok(()));
    assert_eq!(stakes(&r), vec![5, 12]);
    assert_eq!(r.total_delegated, 17);
    assert_eq!(r.delegate(0, u128::MAX - 16), Err(VaultError::InvalidAmount));
    assert_eq!(stakes(&r), vec![5, 12]);
    assert_eq!(r.total_delegated, 17);
}

#[test]
fn deregister_spreads_stake_in_proportion() {
    let mut r = registry_of(&[("a", 10), ("gone", 100), ("b", 20), ("c", 30)]);
    assert_eq!(r.deregister(&"gone".to_string()), Ok(100));
    assert_eq!(names(&r), vec!["a".to_string(), "b".to_string(), "c".to_string()]);
    assert_eq!(stakes(&r), vec![26, 54, 80]);
    assert_eq!(r.total_delegated, 160);
}

#[test]
fn deregister_loses_nothing_to_rounding() {
    let mut r = registry_of(&[("gone", 7), ("a", 1), ("b", 1), ("c", 1)]);
    assert_eq!(r.deregister(&"gone".to_string()), Ok(7));
    assert_eq!(stakes(&r), vec![3, 3, 4]);
    assert_eq!(r.total_delegated, 10);
}

#[test]
fn deregister_gives_all_to_the_first_where_nobody_holds_stake() {
    let mut r = registry_of(&[("a", 0), ("gone", 9), ("b", 0)]);
    assert_eq!(r.deregister(&"gone".to_string()), Ok(9));
    assert_eq!(stakes(&r), vec![9, 0]);
}

#[test]
fn deregister_moves_everything_to_a_single_remaining_validator() {
    let mut r = registry_of(&[("a", 4), ("gone", 9)]);
    assert_eq!(r.deregister(&"gone".to_string()), Ok(9));
    assert_eq!(names(&r), vec!["a".to_string()]);
    assert_eq!(stakes(&r), vec![13]);
}

#[test]
fn deregister_refusals() {
    let mut r = registry_of(&[("only", 4)]);
    assert_eq!(r.deregister(&"other".to_string()), Err(VaultError::ValidatorNotWhitelisted));
    assert_eq!(r.deregister(&"only".to_string()), Err(VaultError::NoValidatorsRegistered));
    assert_eq!(stakes(&r), vec![4]);
    let mut empty_handed = registry_of(&[("only", 0)]);
    assert_eq!(empty_handed.deregister(&"only".to_string()), Ok(0));
    assert_eq!(empty_handed.validators.len(), 0);
}

#[test]
fn drain_takes_from_the_front() {
    let mut r = registry_of(&[("a", 10), ("b", 20), ("c", 30)]);
    assert_eq!(r.drain_stake(25), 25);
    assert_eq!(stakes(&r), vec![0, 5, 30]);
    assert_eq!(r.total_delegated, 35);
    assert_eq!(r.drain_stake(100), 35);
    assert_eq!(stakes(&r), vec![0, 0, 0]);
    assert_eq!(r.drain_stake(1), 0);
}

#[test]
fn spread_keeps_the_total() {
    let mut r = registry_of(&[("a", 1), ("b", 2), ("c", 4)]);
    r.spread_stake(1000);
    assert_eq!(stakes(&r).iter().sum::<u128>(), 1007);
    assert_eq!(r.total_delegated, 1007);
    assert_eq!(stakes(&r), vec![1 + 142, 2 + 286, 4 + 572]);
}
