//! Versions, version epochs, and the validity history of cached values.
//!
//! A `VersionNumber` counts generations of external inputs. A cached value
//! carries a `CellHistory`: a set of closed-open intervals of versions over
//! which the value is known valid. A value is live at version `v` iff some
//! interval contains `v`. Histories are intersected interval-wise when
//! deciding whether a set of dependencies still supports a cached value.

use vstd::prelude::*;

verus! {

/// A monotonically increasing counter of external-input generations.
pub type VersionNumber = u64;

/// A generation counter scoped to an engine instance, used to reject stale
/// updates from tasks that outlived the generation they started in.
pub type VersionEpoch = u64;

/// A closed-open interval `[begin, end)` of versions.
#[derive(Clone, Copy, PartialEq, Eq, Structural, Debug)]
pub struct VersionRange {
    pub begin: u64,
    pub end: u64,
}

/// Does the interval `r` contain the version `v`?
pub open spec fn in_range(r: VersionRange, v: int) -> bool {
    r.begin <= v && v < r.end
}

/// Intervals are non-empty and sorted, with no overlap (adjacency allowed).
pub open spec fn ranges_wf(rs: Seq<VersionRange>) -> bool {
    &&& forall|i: int| 0 <= i < rs.len() ==> (#[trigger] rs[i]).begin < rs[i].end
    &&& forall|i: int| 0 <= i && i + 1 < rs.len() ==> (#[trigger] rs[i]).end <= rs[i + 1].begin
}

/// Does some interval of `rs` contain `v`?
pub open spec fn ranges_contain(rs: Seq<VersionRange>, v: int) -> bool {
    exists|t: int| 0 <= t < rs.len() && in_range(#[trigger] rs[t], v)
}

/// In a well-formed sequence, earlier intervals end before later ones begin.
pub proof fn lemma_ranges_ordered(rs: Seq<VersionRange>, i: int, j: int)
    requires
        ranges_wf(rs),
        0 <= i < j < rs.len(),
    ensures
        rs[i].end <= rs[j].begin,
    decreases j - i,
{
    if i + 1 == j {
    } else {
        lemma_ranges_ordered(rs, i + 1, j);
    }
}

/// The only interval of a well-formed sequence that can contain `v` is the
/// interval `i` whose beginning is at or below `v` while the next interval
/// begins above `v`.
pub proof fn lemma_witness_at(rs: Seq<VersionRange>, i: int, v: int)
    requires
        ranges_wf(rs),
        0 <= i < rs.len(),
        ranges_contain(rs, v),
        rs[i].begin <= v,
        i + 1 < rs.len() ==> v < rs[i + 1].begin,
    ensures
        in_range(rs[i], v),
{
    let t = choose|t: int| 0 <= t < rs.len() && in_range(#[trigger] rs[t], v);
    if t < i {
        lemma_ranges_ordered(rs, t, i);
        assert(false);
    } else if t > i {
        if t > i + 1 {
            lemma_ranges_ordered(rs, i + 1, t);
        }
        assert(false);
    }
}

/// Membership in a sequence extended by one interval.
pub proof fn lemma_contain_push(rs: Seq<VersionRange>, x: VersionRange, v: int)
    ensures
        ranges_contain(rs.push(x), v) <==> (ranges_contain(rs, v) || in_range(x, v)),
{
    let ps = rs.push(x);
    assert(ps[rs.len() as int] == x);
    if ranges_contain(ps, v) {
        let t = choose|t: int| 0 <= t < ps.len() && in_range(#[trigger] ps[t], v);
        if t < rs.len() {
            assert(ps[t] == rs[t]);
            assert(ranges_contain(rs, v));
        }
    }
    if ranges_contain(rs, v) {
        let t = choose|t: int| 0 <= t < rs.len() && in_range(#[trigger] rs[t], v);
        assert(ps[t] == rs[t]);
        assert(ranges_contain(ps, v));
    }
    if in_range(x, v) {
        assert(ranges_contain(ps, v));
    }
}

/// Appending an interval that is non-empty and starts at or after the end of
/// the last interval keeps the sequence well formed.
pub proof fn lemma_wf_push(rs: Seq<VersionRange>, x: VersionRange)
    requires
        ranges_wf(rs),
        x.begin < x.end,
        rs.len() > 0 ==> rs[rs.len() - 1].end <= x.begin,
    ensures
        ranges_wf(rs.push(x)),
{
    let ps = rs.push(x);
    assert forall|i: int| 0 <= i < ps.len() implies (#[trigger] ps[i]).begin < ps[i].end by {
        if i < rs.len() {
            assert(ps[i] == rs[i]);
        }
    }
    assert forall|i: int| 0 <= i && i + 1 < ps.len() implies (#[trigger] ps[i]).end <= ps[i + 1].begin by {
        if i + 1 < rs.len() {
            assert(ps[i] == rs[i]);
            assert(ps[i + 1] == rs[i + 1]);
        } else {
            if rs.len() > 0 && i + 1 == rs.len() {
                if i < rs.len() - 1 {
                    lemma_ranges_ordered(rs, i, rs.len() - 1);
                }
                assert(ps[i] == rs[i]);
            }
        }
    }
}

/// A set of closed-open version intervals, sorted and disjoint. A value whose
/// history holds such a set is known valid exactly at the versions the
/// intervals cover.
pub struct VersionRanges {
    pub ranges: Vec<VersionRange>,
}

/// The validity history of a cached value: the version ranges over which it
/// has been verified.
pub type CellHistory = VersionRanges;

impl VersionRanges {
    /// Representation invariant: intervals non-empty, sorted, disjoint.
    pub open spec fn wf(self) -> bool {
        ranges_wf(self.ranges@)
    }

    /// The semantics of a history: the set of versions it covers.
    pub open spec fn contains(self, v: int) -> bool {
        ranges_contain(self.ranges@, v)
    }

    /// The empty set of versions.
    pub fn empty() -> (r: Self)
        ensures
            r.wf(),
            forall|w: int| !(#[trigger] r.contains(w)),
            r.ranges@.len() == 0,
    {
        VersionRanges { ranges: Vec::new() }
    }

    /// The singleton history `[v, v+1)`: valid exactly at `v`.
    pub fn verified(v: VersionNumber) -> (r: Self)
        requires
            v < u64::MAX,
        ensures
            r.wf(),
            forall|w: int| #[trigger] r.contains(w) <==> w == v as int,
    {
        let mut ranges: Vec<VersionRange> = Vec::new();
        ranges.push(VersionRange { begin: v, end: v + 1 });
        let r = VersionRanges { ranges };
        proof {
            assert forall|w: int| #[trigger] r.contains(w) <==> w == v as int by {
                if w == v as int {
                    assert(in_range(r.ranges@[0], w));
                }
            }
        }
        r
    }

    /// An exact copy.
    pub fn duplicate(&self) -> (r: Self)
        ensures
            r.ranges@ == self.ranges@,
    {
        let mut ranges: Vec<VersionRange> = Vec::new();
        let mut i: usize = 0;
        while i < self.ranges.len()
            invariant
                i <= self.ranges@.len(),
                ranges@ == self.ranges@.subrange(0, i as int),
            decreases self.ranges@.len() - i,
        {
            ranges.push(self.ranges[i]);
            proof {
                assert(ranges@ =~= self.ranges@.subrange(0, i + 1 as int));
            }
            i += 1;
        }
        proof {
            assert(ranges@ =~= self.ranges@);
        }
        VersionRanges { ranges }
    }

    /// Is `v` among the covered versions?
    pub fn contains_version(&self, v: VersionNumber) -> (r: bool)
        ensures
            r == self.contains(v as int),
    {
        let mut i: usize = 0;
        while i < self.ranges.len()
            invariant
                i <= self.ranges@.len(),
                forall|t: int| 0 <= t < i ==> !in_range(#[trigger] self.ranges@[t], v as int),
            decreases self.ranges@.len() - i,
        {
            let r = self.ranges[i];
            if r.begin <= v && v < r.end {
                proof {
                    assert(in_range(self.ranges@[i as int], v as int));
                }
                return true;
            }
            i += 1;
        }
        false
    }

    /// Does the history cover no version at all?
    pub fn is_empty(&self) -> (r: bool)
        requires
            self.wf(),
        ensures
            r == !exists|w: int| #[trigger] self.contains(w),
    {
        if self.ranges.len() == 0 {
            proof {
                assert forall|w: int| !(#[trigger] self.contains(w)) by {}
            }
            true
        } else {
            proof {
                let w = self.ranges@[0].begin as int;
                assert(in_range(self.ranges@[0], w));
                assert(self.contains(w));
            }
            false
        }
    }
    /// Interval-wise intersection: the result covers exactly the versions
    /// that both histories cover.
    #[verifier::loop_isolation(false)]
    #[verifier::rlimit(100)]
    pub fn intersect(&self, other: &Self) -> (r: Self)
        requires
            self.wf(),
            other.wf(),
        ensures
            r.wf(),
            forall|v: int| #[trigger] r.contains(v) <==> self.contains(v) && other.contains(v),
    {
        let ghost aseq = self.ranges@;
        let ghost bseq = other.ranges@;
        let mut out: Vec<VersionRange> = Vec::new();
        let mut i: usize = 0;
        let mut j: usize = 0;
        proof {
            assert forall|v: int|
                self.contains(v) && other.contains(v) && intersect_decided(
                    aseq,
                    bseq,
                    0,
                    0,
                    v,
                ) implies #[trigger] ranges_contain(out@, v) by {
                lemma_below_first(aseq, v);
                lemma_below_first(bseq, v);
            }
        }
        while i < self.ranges.len() && j < other.ranges.len()
            invariant
                i <= aseq.len(),
                j <= bseq.len(),
                ranges_wf(out@),
                forall|v: int| #[trigger] ranges_contain(out@, v) ==> self.contains(v)
                    && other.contains(v),
                forall|v: int| self.contains(v) && other.contains(v) && intersect_decided(
                    aseq,
                    bseq,
                    i as int,
                    j as int,
                    v,
                ) ==> #[trigger] ranges_contain(out@, v),
                i < aseq.len() && j < bseq.len() ==> forall|t: int|
                    0 <= t < out@.len() ==> (#[trigger] out@[t]).end <= aseq[i as int].begin
                        || out@[t].end <= bseq[j as int].begin,
            decreases aseq.len() - i + bseq.len() - j,
        {
            let ghost oi = i as int;
            let ghost oj = j as int;
            let a = self.ranges[i];
            let b = other.ranges[j];
            let lo = if a.begin >= b.begin {
                a.begin
            } else {
                b.begin
            };
            let hi = if a.end <= b.end {
                a.end
            } else {
                b.end
            };
            let ghost old_out = out@;
            if lo < hi {
                out.push(VersionRange { begin: lo, end: hi });
                proof {
                    lemma_wf_push(old_out, VersionRange { begin: lo, end: hi });
                    assert forall|v: int| #[trigger] ranges_contain(out@, v) implies self.contains(
                        v,
                    ) && other.contains(v) by {
                        lemma_contain_push(old_out, VersionRange { begin: lo, end: hi }, v);
                        if in_range(VersionRange { begin: lo, end: hi }, v) {
                            assert(in_range(aseq[oi], v));
                            assert(in_range(bseq[oj], v));
                        }
                    }
                }
            }
            let advanced_first = a.end <= b.end;
            if advanced_first {
                i += 1;
            } else {
                j += 1;
            }
            proof {
                assert forall|v: int|
                    self.contains(v) && other.contains(v) && intersect_decided(
                        aseq,
                        bseq,
                        i as int,
                        j as int,
                        v,
                    ) implies #[trigger] ranges_contain(out@, v) by {
                    if lo < hi {
                        lemma_contain_push(old_out, VersionRange { begin: lo, end: hi }, v);
                    }
                    if !intersect_decided(aseq, bseq, oi, oj, v) {
                        lemma_intersect_newly_decided(aseq, bseq, oi, oj, v, advanced_first);
                        assert(lo <= v && v < hi);
                        assert(in_range(VersionRange { begin: lo, end: hi }, v));
                    }
                }
                // the frontier bound for the next iteration
                if i < aseq.len() && j < bseq.len() {
                    assert forall|t: int| 0 <= t < out@.len() implies (#[trigger] out@[t]).end
                        <= aseq[i as int].begin || out@[t].end <= bseq[j as int].begin by {
                        if lo < hi && t == out@.len() - 1 {
                            if advanced_first {
                                assert(aseq[oi].end <= aseq[i as int].begin);
                            } else {
                                assert(bseq[oj].end <= bseq[j as int].begin);
                            }
                        } else {
                            assert(out@[t] == old_out[t]);
                        }
                    }
                }
            }
        }
        let r = VersionRanges { ranges: out };
        proof {
            assert forall|v: int| #[trigger] r.contains(v) <==> self.contains(v) && other.contains(
                v,
            ) by {
                if self.contains(v) && other.contains(v) {
                    assert(intersect_decided(aseq, bseq, i as int, j as int, v));
                }
            }
        }
        r
    }

    /// The union of the history with the singleton `[v, v+1)`: the result
    /// covers exactly the old versions plus `v`.
    #[verifier::loop_isolation(false)]
    pub fn add_verified(&self, v: VersionNumber) -> (r: Self)
        requires
            self.wf(),
            v < u64::MAX,
        ensures
            r.wf(),
            forall|w: int| #[trigger] r.contains(w) <==> self.contains(w) || w == v as int,
    {
        let ghost sseq = self.ranges@;
        let n = self.ranges.len();
        // find the first interval that ends above v
        let mut i: usize = 0;
        while i < n && self.ranges[i].end <= v
            invariant
                i <= n,
                forall|t: int| 0 <= t < i ==> (#[trigger] sseq[t]).end <= v as int,
            decreases n - i,
        {
            i += 1;
        }
        if i < n && self.ranges[i].begin <= v {
            // v is already covered
            let r = self.duplicate();
            proof {
                assert(in_range(sseq[i as int], v as int));
                assert(self.contains(v as int));
                assert(r.ranges@ =~= sseq);
            }
            return r;
        }
        // copy the intervals below v, insert [v, v+1), copy the rest
        let mut out: Vec<VersionRange> = Vec::new();
        let mut t: usize = 0;
        while t < i
            invariant
                t <= i,
                i <= n,
                out@ == sseq.subrange(0, t as int),
            decreases i - t,
        {
            out.push(self.ranges[t]);
            proof {
                assert(out@ =~= sseq.subrange(0, t + 1 as int));
            }
            t += 1;
        }
        out.push(VersionRange { begin: v, end: v + 1 });
        let mut u: usize = i;
        while u < n
            invariant
                i <= u <= n,
                out@ == sseq.subrange(0, i as int).push(VersionRange { begin: v, end: (v + 1) as u64 })
                    + sseq.subrange(i as int, u as int),
            decreases n - u,
        {
            out.push(self.ranges[u]);
            proof {
                assert(out@ =~= sseq.subrange(0, i as int).push(
                    VersionRange { begin: v, end: (v + 1) as u64 },
                ) + sseq.subrange(i as int, u + 1 as int));
            }
            u += 1;
        }
        let r = VersionRanges { ranges: out };
        proof {
            lemma_insert_shape(sseq, i as int, v as int, r.ranges@);
        }
        r
    }
}

/// Has the two-pointer intersection walk already decided whether `v` belongs
/// to the result, given its current positions `i` and `j`?
pub open spec fn intersect_decided(
    aseq: Seq<VersionRange>,
    bseq: Seq<VersionRange>,
    i: int,
    j: int,
    v: int,
) -> bool {
    i >= aseq.len() || j >= bseq.len() || v < aseq[i].begin || v < bseq[j].begin
}

/// Inserting the singleton `[v, v+1)` between the intervals that end at or
/// below `v` and those that begin above `v` yields a well-formed sequence
/// covering exactly the old versions plus `v`.
proof fn lemma_insert_shape(sseq: Seq<VersionRange>, i: int, v: int, rseq: Seq<VersionRange>)
    requires
        ranges_wf(sseq),
        0 <= i <= sseq.len(),
        forall|t: int| 0 <= t < i ==> (#[trigger] sseq[t]).end <= v,
        i < sseq.len() ==> sseq[i].end > v && sseq[i].begin > v,
        0 <= v < u64::MAX,
        rseq == sseq.subrange(0, i).push(VersionRange { begin: v as u64, end: (v + 1) as u64 })
            + sseq.subrange(i, sseq.len() as int),
    ensures
        ranges_wf(rseq),
        forall|w: int| #[trigger] ranges_contain(rseq, w) <==> ranges_contain(sseq, w) || w == v,
{
    assert(rseq.len() == sseq.len() + 1);
    assert forall|t: int| 0 <= t < rseq.len() implies #[trigger] rseq[t] == (if t < i {
        sseq[t]
    } else if t == i {
        VersionRange { begin: v as u64, end: (v + 1) as u64 }
    } else {
        sseq[t - 1]
    }) by {}
    // well-formedness
    assert forall|t: int| 0 <= t < rseq.len() implies (#[trigger] rseq[t]).begin < rseq[t].end by {}
    assert forall|t: int| 0 <= t && t + 1 < rseq.len() implies (#[trigger] rseq[t]).end <= rseq[t
        + 1].begin by {
        if t + 1 == i {
        } else if t == i {
        } else if t + 1 > i {
        }
    }
    // membership
    assert forall|w: int| #[trigger] ranges_contain(rseq, w) <==> ranges_contain(sseq, w) || w
        == v by {
        if ranges_contain(rseq, w) {
            let t = choose|t: int| 0 <= t < rseq.len() && in_range(#[trigger] rseq[t], w);
            if t < i {
                assert(in_range(sseq[t], w));
                assert(ranges_contain(sseq, w));
            } else if t == i {
                assert(w == v);
            } else {
                assert(in_range(sseq[t - 1], w));
                assert(ranges_contain(sseq, w));
            }
        }
        if ranges_contain(sseq, w) {
            let t = choose|t: int| 0 <= t < sseq.len() && in_range(#[trigger] sseq[t], w);
            if t < i {
                assert(in_range(rseq[t], w));
            } else {
                assert(in_range(rseq[t + 1], w));
            }
            assert(ranges_contain(rseq, w));
        }
        if w == v {
            assert(in_range(rseq[i], w));
            assert(ranges_contain(rseq, w));
        }
    }
}


/// A covered version lies at or above the beginning of the first interval.
pub proof fn lemma_below_first(rs: Seq<VersionRange>, v: int)
    requires
        ranges_wf(rs),
        ranges_contain(rs, v),
    ensures
        rs.len() > 0,
        v >= rs[0].begin,
{
    let t = choose|t: int| 0 <= t < rs.len() && in_range(#[trigger] rs[t], v);
    if t > 0 {
        lemma_ranges_ordered(rs, 0, t);
    }
}

/// During the intersection walk, a common version that becomes decided by one
/// step of the walk lies in both of the intervals the walk was looking at.
proof fn lemma_intersect_newly_decided(
    aseq: Seq<VersionRange>,
    bseq: Seq<VersionRange>,
    i: int,
    j: int,
    v: int,
    advanced_first: bool,
)
    requires
        ranges_wf(aseq),
        ranges_wf(bseq),
        0 <= i < aseq.len(),
        0 <= j < bseq.len(),
        ranges_contain(aseq, v),
        ranges_contain(bseq, v),
        !intersect_decided(aseq, bseq, i, j, v),
        advanced_first ==> aseq[i].end <= bseq[j].end && intersect_decided(aseq, bseq, i + 1, j, v),
        !advanced_first ==> bseq[j].end < aseq[i].end && intersect_decided(aseq, bseq, i, j + 1, v),
    ensures
        in_range(aseq[i], v),
        in_range(bseq[j], v),
{
    if advanced_first {
        lemma_witness_at(aseq, i, v);
    } else {
        lemma_witness_at(bseq, j, v);
    }
}

} // verus!
