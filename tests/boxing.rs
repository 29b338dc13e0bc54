use std::cell::Cell;
use topohedral_modeller::boxing::{bracket_interval, BoxCache};

#[test]
fn cached_value_is_returned_without_recomputing() {
    let calls = Cell::new(0);
    let mut cache: BoxCache<[i64; 2]> = BoxCache::new();
    assert_eq!(cache.get(), None);
    let first: Result<[i64; 2], ()> = cache.get_or_compute(|| {
        calls.set(calls.get() + 1);
        Ok([-3, 9])
    });
    let second: Result<[i64; 2], ()> = cache.get_or_compute(|| {
        calls.set(calls.get() + 1);
        Ok([0, 0])
    });
    assert_eq!(first, Ok([-3, 9]));
    assert_eq!(second, first);
    assert_eq!(calls.get(), 1);
    assert_eq!(cache.get(), Some([-3, 9]));
}

#[test]
fn failed_computation_is_not_stored() {
    let mut cache: BoxCache<u32> = BoxCache::new();
    let r: Result<u32, &str> = cache.get_or_compute(|| Err("no convergence"));
    assert_eq!(r, Err("no convergence"));
    assert_eq!(cache.get(), None);
    let r: Result<u32, &str> = cache.get_or_compute(|| Ok(4));
    assert_eq!(r, Ok(4));
    assert_eq!(cache.get(), Some(4));
}

#[test]
fn recompute_overwrites_the_cache() {
    let mut cache: BoxCache<u32> = BoxCache::new();
    let _: Result<u32, ()> = cache.get_or_compute(|| Ok(1));
    let r: Result<u32, ()> = cache.recompute(|| Ok(2));
    assert_eq!(r, Ok(2));
    assert_eq!(cache.get(), Some(2));
    let r: Result<u32, ()> = cache.recompute(|| Err(()));
    assert_eq!(r, Err(()));
    assert_eq!(cache.get(), Some(2));
}

#[test]
fn bracket_first_last_and_interior_samples() {
    // cubic with 10 knots: samples are knots 3..7, four of them
    assert_eq!(bracket_interval(0, 3, 10), (3, 5));
    assert_eq!(bracket_interval(3, 3, 10), (8, 9));
    assert_eq!(bracket_interval(1, 3, 10), (3, 5));
    assert_eq!(bracket_interval(2, 3, 10), (4, 6));
}
