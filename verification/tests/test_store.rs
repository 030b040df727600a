use std::collections::HashSet;

use gymapp::errors::E;
use gymapp::models::{Ad, Statement, Store};

#[test]
fn new_store_is_empty() {
    let store = Store::new();
    assert_eq!(store.len(), 0);
    assert_eq!(store.get_by_key(1), None);
}

#[test]
fn insert_assigns_identities_in_order() {
    let mut store = Store::new();
    assert_eq!(store.insert(7), Ok(Ad { id: 1, key: 7 }));
    assert_eq!(store.insert(9), Ok(Ad { id: 2, key: 9 }));
    assert_eq!(store.len(), 2);
    assert_eq!(store.get_by_key(7), Some(Ad { id: 1, key: 7 }));
    assert_eq!(store.get_by_key(9), Some(Ad { id: 2, key: 9 }));
}

#[test]
fn insert_of_an_outstanding_key_fails_and_keeps_the_row() {
    let mut store = Store::new();
    assert_eq!(store.insert(7), Ok(Ad { id: 1, key: 7 }));
    assert_eq!(store.insert(7), Err(E::StoreUnavailable));
    assert_eq!(store.len(), 1);
    assert_eq!(store.get_by_key(7), Some(Ad { id: 1, key: 7 }));
    // the failed statement used no identity
    assert_eq!(store.insert(8), Ok(Ad { id: 2, key: 8 }));
}

#[test]
fn identities_are_not_reused_after_a_redemption() {
    let mut store = Store::new();
    assert_eq!(store.insert(7), Ok(Ad { id: 1, key: 7 }));
    assert_eq!(store.take(7), Some(Ad { id: 1, key: 7 }));
    assert_eq!(store.insert(7), Ok(Ad { id: 2, key: 7 }));
}

#[test]
fn take_removes_the_row_once() {
    let mut store = Store::new();
    assert!(store.insert(5).is_ok());
    assert!(store.insert(6).is_ok());
    assert_eq!(store.take(5), Some(Ad { id: 1, key: 5 }));
    assert_eq!(store.take(5), None);
    assert_eq!(store.len(), 1);
    assert_eq!(store.get_by_key(6), Some(Ad { id: 2, key: 6 }));
}

#[test]
fn take_of_a_key_never_issued_changes_nothing() {
    let mut store = Store::new();
    assert!(store.insert(5).is_ok());
    assert_eq!(store.take(6), None);
    assert_eq!(store.len(), 1);
    assert_eq!(store.get_by_key(5), Some(Ad { id: 1, key: 5 }));
}

#[test]
fn delete_goes_by_identity() {
    let mut store = Store::new();
    assert!(store.insert(5).is_ok());
    assert!(store.insert(6).is_ok());
    assert_eq!(store.delete(2), Some(Ad { id: 2, key: 6 }));
    assert_eq!(store.delete(2), None);
    assert_eq!(store.delete(40), None);
    assert_eq!(store.get_by_key(6), None);
    assert_eq!(store.get_by_key(5), Some(Ad { id: 1, key: 5 }));
}

#[test]
fn lookup_then_delete_equals_take() {
    let mut one = Store::new();
    let mut two = Store::new();
    for key in [3u128, 4, 5] {
        assert!(one.insert(key).is_ok());
        assert!(two.insert(key).is_ok());
    }
    let found = one.get_by_key(4).unwrap();
    assert_eq!(one.delete(found.id), two.take(4));
    for key in [3u128, 4, 5] {
        assert_eq!(one.get_by_key(key), two.get_by_key(key));
    }
}

#[test]
fn ad_create_draws_a_random_key_and_stores_it() {
    let mut store = Store::new();
    let ad = Ad::create(&mut store).unwrap();
    assert_eq!(ad.id, 1);
    assert_eq!(store.get_by_key(ad.key), Some(ad));
    // version 4, variant 10
    assert_eq!((ad.key >> 76) & 0xf, 4);
    assert_eq!((ad.key >> 62) & 0x3, 2);
    assert_eq!(
        ad.key & 0x0000_0000_0000_f000_c000_0000_0000_0000,
        0x0000_0000_0000_4000_8000_0000_0000_0000
    );
    assert_eq!(uuid::Uuid::from_u128(ad.key).get_version_num(), 4);
}

#[test]
fn ad_get_by_key_and_delete() {
    let mut store = Store::new();
    let ad = Ad::create(&mut store).unwrap();
    assert_eq!(Ad::get_by_key(ad.key, &store), Ok(Some(ad)));
    assert_eq!(Ad::get_by_key(ad.key ^ 1, &store), Ok(None));
    assert_eq!(ad.delete(&mut store), Ok(ad));
    assert_eq!(ad.delete(&mut store), Err(E::StoreUnavailable));
    assert_eq!(Ad::get_by_key(ad.key, &store), Ok(None));
}

#[test]
fn a_thousand_issued_keys_are_distinct() {
    let mut store = Store::new();
    let mut seen: HashSet<u128> = HashSet::new();
    let mut n: usize = 0;
    while n < 1000 {
        let ad = Ad::create(&mut store).unwrap();
        assert!(seen.insert(ad.key));
        assert_eq!(ad.id as usize, n + 1);
        n += 1;
    }
    assert_eq!(store.len(), 1000);
}

#[test]
fn of_many_redemptions_of_one_key_exactly_one_succeeds() {
    let mut store = Store::new();
    assert!(store.apply(Statement::Issue(5)));
    assert!(store.apply(Statement::Issue(6)));
    let schedule = [
        Statement::Redeem(7),
        Statement::Redeem(5),
        Statement::Issue(8),
        Statement::Redeem(5),
        Statement::Redeem(6),
        Statement::Redeem(5),
        Statement::Redeem(5),
    ];
    let mut hits: usize = 0;
    for statement in schedule {
        let done = store.apply(statement);
        if statement == Statement::Redeem(5) && done {
            hits += 1;
        }
    }
    assert_eq!(hits, 1);
    assert_eq!(store.len(), 1);
    assert_eq!(store.get_by_key(8), Some(Ad { id: 3, key: 8 }));
}

#[test]
fn apply_reports_whether_the_statement_took_effect() {
    let mut store = Store::new();
    assert!(!store.apply(Statement::Redeem(5)));
    assert!(store.apply(Statement::Issue(5)));
    assert!(!store.apply(Statement::Issue(5)));
    assert!(store.apply(Statement::Redeem(5)));
    assert!(!store.apply(Statement::Redeem(5)));
    assert!(store.apply(Statement::Issue(5)));
    assert_eq!(store.get_by_key(5), Some(Ad { id: 2, key: 5 }));
}
