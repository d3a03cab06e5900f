//! Version-range histories: construction, intersection, extension.

use dice::versions::{VersionRange, VersionRanges};

fn ranges(pairs: &[(u64, u64)]) -> VersionRanges {
    VersionRanges {
        ranges: pairs
            .iter()
            .map(|(b, e)| VersionRange { begin: *b, end: *e })
            .collect(),
    }
}

fn covered(r: &VersionRanges, upto: u64) -> Vec<u64> {
    (0..upto).filter(|v| r.contains_version(*v)).collect()
}

#[test]
fn verified_covers_exactly_one_version() {
    let h = VersionRanges::verified(3);
    assert!(!h.contains_version(2));
    assert!(h.contains_version(3));
    assert!(!h.contains_version(4));
    assert_eq!(covered(&h, 10), vec![3]);
}

#[test]
fn verified_at_the_largest_version() {
    let h = VersionRanges::verified(u64::MAX - 1);
    assert!(h.contains_version(u64::MAX - 1));
    assert!(!h.contains_version(u64::MAX - 2));
}

#[test]
fn empty_history_covers_nothing() {
    let h = VersionRanges::empty();
    assert!(h.is_empty());
    assert_eq!(covered(&h, 10), Vec::<u64>::new());
}

#[test]
fn intersect_overlapping_intervals() {
    // [1,3) u [5,7)  intersected with  [2,6)  is  [2,3) u [5,6)
    let a = ranges(&[(1, 3), (5, 7)]);
    let b = ranges(&[(2, 6)]);
    let i = a.intersect(&b);
    assert_eq!(covered(&i, 10), vec![2, 5]);
    assert!(!i.is_empty());
}

#[test]
fn intersect_disjoint_intervals_is_empty() {
    let a = ranges(&[(1, 3)]);
    let b = ranges(&[(4, 8)]);
    let i = a.intersect(&b);
    assert!(i.is_empty());
    assert_eq!(covered(&i, 10), Vec::<u64>::new());
}

#[test]
fn intersect_is_symmetric_on_coverage() {
    let a = ranges(&[(0, 4), (6, 9)]);
    let b = ranges(&[(2, 7)]);
    let ab = a.intersect(&b);
    let ba = b.intersect(&a);
    assert_eq!(covered(&ab, 12), covered(&ba, 12));
    assert_eq!(covered(&ab, 12), vec![2, 3, 6]);
}

#[test]
fn add_verified_extends_coverage_by_one_version() {
    let h = ranges(&[(1, 2), (5, 6)]);
    let h2 = h.add_verified(3);
    assert_eq!(covered(&h2, 10), vec![1, 3, 5]);
    // adding a version already covered changes nothing
    let h3 = h2.add_verified(1);
    assert_eq!(covered(&h3, 10), vec![1, 3, 5]);
    // adjacent additions knit a contiguous span
    let h4 = h3.add_verified(2);
    assert_eq!(covered(&h4, 10), vec![1, 2, 3, 5]);
}

#[test]
fn duplicate_is_an_exact_copy() {
    let h = ranges(&[(1, 3), (7, 9)]);
    let d = h.duplicate();
    assert_eq!(covered(&d, 12), covered(&h, 12));
    assert_eq!(d.ranges.len(), h.ranges.len());
}
