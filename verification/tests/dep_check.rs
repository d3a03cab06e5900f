//! The dependency checker over concrete resolutions.

use dice::deps::{did_deps_change, DidDepsChange};
use dice::key::DiceKey;
use dice::value::DiceError;
use dice::versions::{VersionRange, VersionRanges};

fn ranges(pairs: &[(u64, u64)]) -> VersionRanges {
    VersionRanges {
        ranges: pairs
            .iter()
            .map(|(b, e)| VersionRange { begin: *b, end: *e })
            .collect(),
    }
}

fn keys(n: usize) -> Vec<DiceKey> {
    (0..n).map(|i| DiceKey { index: i as u32 }).collect()
}

#[test]
fn no_deps_is_its_own_verdict() {
    let verified = ranges(&[(1, 2)]);
    let r = did_deps_change(&verified, &keys(0), &vec![]);
    assert!(matches!(r, DidDepsChange::NoDeps));
    assert!(!r.is_changed());
}

#[test]
fn all_deps_still_verified_means_no_change() {
    let verified = ranges(&[(1, 2)]);
    let outcomes = vec![Ok(ranges(&[(1, 3)])), Ok(ranges(&[(0, 5)]))];
    let r = did_deps_change(&verified, &keys(2), &outcomes);
    match r {
        DidDepsChange::NoChange(ds) => assert_eq!(ds, keys(2)),
        _ => panic!("expected reuse"),
    }
}

#[test]
fn an_erroring_dep_forces_recompute() {
    let verified = ranges(&[(1, 2)]);
    let outcomes = vec![Ok(ranges(&[(1, 3)])), Err(DiceError::Cycle)];
    let r = did_deps_change(&verified, &keys(2), &outcomes);
    assert!(r.is_changed());
}

#[test]
fn an_empty_intersection_forces_recompute() {
    let verified = ranges(&[(1, 2)]);
    // the second dep was only ever verified at version 2 and beyond
    let outcomes = vec![Ok(ranges(&[(1, 3)])), Ok(ranges(&[(2, 4)]))];
    let r = did_deps_change(&verified, &keys(2), &outcomes);
    assert!(r.is_changed());
}

#[test]
fn reuse_needs_a_single_common_version() {
    // the parent was verified at 1 and at 4; one dep covers 1 but not 4, the
    // other covers 4 but not 1: no version is common to all three
    let verified = ranges(&[(1, 2), (4, 5)]);
    let outcomes = vec![Ok(ranges(&[(0, 2)])), Ok(ranges(&[(3, 6)]))];
    let r = did_deps_change(&verified, &keys(2), &outcomes);
    assert!(r.is_changed());
    // widen the first dep to cover 4 as well: version 4 becomes common
    let outcomes2 = vec![Ok(ranges(&[(0, 5)])), Ok(ranges(&[(3, 6)]))];
    let r2 = did_deps_change(&verified, &keys(2), &outcomes2);
    assert!(matches!(r2, DidDepsChange::NoChange(_)));
}

#[test]
fn empty_parent_history_never_reuses() {
    let verified = VersionRanges::empty();
    let outcomes = vec![Ok(ranges(&[(0, 10)]))];
    let r = did_deps_change(&verified, &keys(1), &outcomes);
    assert!(r.is_changed());
}
