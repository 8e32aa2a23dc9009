use beater::{Claim, ContentCache, FileId};
use std::cell::Cell;

#[test]
fn second_get_or_insert_does_not_populate() {
    let mut cache = ContentCache::new();
    let calls = Cell::new(0u32);
    let f = FileId([9; 20]);
    let first: Result<Vec<u8>, ()> = cache.get_or_insert_with(f, || {
        calls.set(calls.get() + 1);
        Ok(vec![1, 2, 3])
    });
    let second: Result<Vec<u8>, ()> = cache.get_or_insert_with(f, || {
        calls.set(calls.get() + 1);
        Ok(vec![4, 5])
    });
    assert_eq!(first, Ok(vec![1, 2, 3]));
    assert_eq!(second, first);
    assert_eq!(calls.get(), 1);
    assert_eq!(cache.get(f), Some(vec![1, 2, 3]));
}

#[test]
fn failed_population_is_not_cached() {
    let mut cache = ContentCache::new();
    let f = FileId([1; 20]);
    let r: Result<Vec<u8>, &str> = cache.get_or_insert_with(f, || Err("offline"));
    assert_eq!(r, Err("offline"));
    assert_eq!(cache.get(f), None);
    let r: Result<Vec<u8>, &str> = cache.get_or_insert_with(f, || Ok(vec![8]));
    assert_eq!(r, Ok(vec![8]));
}

#[test]
fn different_files_are_independent() {
    let mut cache = ContentCache::new();
    let a = FileId([1; 20]);
    let mut b_bytes = [1u8; 20];
    b_bytes[19] = 2;
    let b = FileId(b_bytes);
    assert!(matches!(cache.claim(a), Claim::Populate));
    assert!(matches!(cache.claim(b), Claim::Populate));
    cache.fulfil(b, vec![2]);
    assert!(matches!(cache.claim(a), Claim::Wait));
    assert!(matches!(cache.claim(b), Claim::Hit(v) if v == vec![2]));
}

#[test]
fn many_claims_populate_once() {
    let mut cache = ContentCache::new();
    let f = FileId([3; 20]);
    let mut populations = 0;
    let mut waiting = 0;
    for _ in 0..8 {
        match cache.claim(f) {
            Claim::Populate => populations += 1,
            Claim::Wait => waiting += 1,
            Claim::Hit(_) => panic!("nothing is stored yet"),
        }
    }
    cache.fulfil(f, vec![42; 10]);
    for _ in 0..waiting {
        match cache.claim(f) {
            Claim::Hit(v) => assert_eq!(v, vec![42; 10]),
            _ => panic!("a waiter must find the stored bytes"),
        }
    }
    assert_eq!(populations, 1);
    assert_eq!(waiting, 7);
}

#[test]
fn abandoned_claim_can_be_retried() {
    let mut cache = ContentCache::new();
    let f = FileId([4; 20]);
    assert!(matches!(cache.claim(f), Claim::Populate));
    assert!(matches!(cache.claim(f), Claim::Wait));
    cache.abandon(f);
    assert!(matches!(cache.claim(f), Claim::Populate));
}

#[test]
fn fulfil_keeps_an_existing_entry() {
    let mut cache = ContentCache::new();
    let f = FileId([5; 20]);
    cache.fulfil(f, vec![1]);
    cache.fulfil(f, vec![2]);
    assert_eq!(cache.get(f), Some(vec![1]));
}
