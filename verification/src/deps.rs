//! The dependency checker.
//!
//! Given the verified version ranges of a cached value and the resolution of
//! each of its recorded dependencies (the dependency's own verified ranges, or
//! an error), decide whether the cached value may be reused. The running
//! intersection of the parent's verified ranges with each dependency's ranges
//! is computed; the cached value is reusable iff every dependency resolved and
//! the intersection is non-empty — that is, iff there is a common version at
//! which the parent's value and all its dependencies were verified together.
//! A dependency that fails to resolve (a cycle or an evaluator error) forces
//! recomputation of the parent; the true error, if real, surfaces there.

use vstd::prelude::*;
use crate::key::DiceKey;
use crate::value::DiceError;
use crate::versions::VersionRanges;

verus! {

/// The checker's verdict.
pub enum DidDepsChange {
    /// Some dependency changed (or failed to resolve); recompute.
    Changed,
    /// These dependencies did not change; the cached value may be reused.
    NoChange(Vec<DiceKey>),
    /// There were no dependencies to check; recompute.
    NoDeps,
}

impl DidDepsChange {
    /// Does the verdict force recomputation of the parent?
    pub open spec fn spec_is_changed(self) -> bool {
        match self {
            DidDepsChange::Changed => true,
            DidDepsChange::NoChange(_) => false,
            DidDepsChange::NoDeps => false,
        }
    }

    pub fn is_changed(&self) -> (r: bool)
        ensures
            r == self.spec_is_changed(),
    {
        match self {
            DidDepsChange::Changed => true,
            DidDepsChange::NoChange(_) => false,
            DidDepsChange::NoDeps => false,
        }
    }
}

/// Did this dependency resolve to ranges that cover `w`?
pub open spec fn dep_ok_contains(o: Result<VersionRanges, DiceError>, w: int) -> bool {
    o matches Ok(rs) && rs.contains(w)
}

/// Is `w` a version at which the parent was verified and at which each of the
/// first `n` dependency resolutions is verified too?
pub open spec fn commonly_verified_upto(
    verified: VersionRanges,
    outcomes: Seq<Result<VersionRanges, DiceError>>,
    n: int,
    w: int,
) -> bool {
    &&& verified.contains(w)
    &&& forall|t: int| 0 <= t < n ==> dep_ok_contains(#[trigger] outcomes[t], w)
}

/// The reuse condition: some version is commonly verified by the parent and
/// every dependency resolution. This fails whenever any dependency errored.
pub open spec fn deps_unchanged(
    verified: VersionRanges,
    outcomes: Seq<Result<VersionRanges, DiceError>>,
) -> bool {
    exists|w: int| #[trigger] commonly_verified_upto(verified, outcomes, outcomes.len() as int, w)
}

/// Decide whether the recorded dependencies of a cached value changed.
///
/// `outcomes[i]` is the resolution of `deps[i]` at the current version. The
/// verdict is `NoDeps` iff there are no dependencies; otherwise `NoChange`
/// (carrying the dependencies) iff every dependency resolved and some version
/// is commonly verified, and `Changed` otherwise.
#[verifier::loop_isolation(false)]
pub fn did_deps_change(
    verified_versions: &VersionRanges,
    deps: &Vec<DiceKey>,
    outcomes: &Vec<Result<VersionRanges, DiceError>>,
) -> (r: DidDepsChange)
    requires
        verified_versions.wf(),
        outcomes@.len() == deps@.len(),
        forall|i: int|
            0 <= i < outcomes@.len() ==> ((#[trigger] outcomes@[i]) matches Ok(rs) ==> rs.wf()),
    ensures
        deps@.len() == 0 ==> r is NoDeps,
        deps@.len() > 0 ==> if deps_unchanged(*verified_versions, outcomes@) {
            r matches DidDepsChange::NoChange(ds) && ds@ == deps@
        } else {
            r is Changed
        },
{
    let n = outcomes.len();
    if n == 0 {
        return DidDepsChange::NoDeps;
    }
    let mut running: VersionRanges = verified_versions.duplicate();
    let mut i: usize = 0;
    while i < n
        invariant
            i <= n,
            running.wf(),
            i > 0 ==> exists|w: int| #[trigger] running.contains(w),
            forall|w: int| #[trigger] running.contains(w) <==> commonly_verified_upto(
                *verified_versions,
                outcomes@,
                i as int,
                w,
            ),
        decreases n - i,
    {
        match &outcomes[i] {
            Result::Err(_) => {
                proof {
                    assert forall|w: int|
                        !commonly_verified_upto(
                            *verified_versions,
                            outcomes@,
                            outcomes@.len() as int,
                            w,
                        ) by {
                        assert(!dep_ok_contains(outcomes@[i as int], w));
                    }
                }
                return DidDepsChange::Changed;
            },
            Result::Ok(rs) => {
                let next = running.intersect(rs);
                proof {
                    assert forall|w: int| #[trigger] next.contains(w) <==> commonly_verified_upto(
                        *verified_versions,
                        outcomes@,
                        i + 1 as int,
                        w,
                    ) by {
                        if next.contains(w) {
                            assert(dep_ok_contains(outcomes@[i as int], w));
                            assert forall|t: int|
                                0 <= t < i + 1 implies dep_ok_contains(
                                #[trigger] outcomes@[t],
                                w,
                            ) by {}
                        } else {
                            if commonly_verified_upto(
                                *verified_versions,
                                outcomes@,
                                i + 1 as int,
                                w,
                            ) {
                                assert(dep_ok_contains(outcomes@[i as int], w));
                                assert(commonly_verified_upto(
                                    *verified_versions,
                                    outcomes@,
                                    i as int,
                                    w,
                                ));
                                assert(false);
                            }
                        }
                    }
                }
                running = next;
                if running.is_empty() {
                    proof {
                        assert forall|w: int|
                            !commonly_verified_upto(
                                *verified_versions,
                                outcomes@,
                                outcomes@.len() as int,
                                w,
                            ) by {
                            if commonly_verified_upto(
                                *verified_versions,
                                outcomes@,
                                outcomes@.len() as int,
                                w,
                            ) {
                                assert(commonly_verified_upto(
                                    *verified_versions,
                                    outcomes@,
                                    i + 1 as int,
                                    w,
                                ));
                                assert(running.contains(w));
                            }
                        }
                    }
                    return DidDepsChange::Changed;
                }
            },
        }
        i += 1;
    }
    proof {
        assert(exists|w: int| #[trigger] running.contains(w));
        let w = choose|w: int| #[trigger] running.contains(w);
        assert(commonly_verified_upto(*verified_versions, outcomes@, n as int, w));
        assert(deps_unchanged(*verified_versions, outcomes@));
    }
    DidDepsChange::NoChange(crate::key::clone_keys(deps))
}

/// Reuse soundness: when the checker allows reuse, every dependency resolved —
/// so, if each successful resolution was made at the current version `v` and
/// therefore covers `v`, every dependency's verified ranges contain `v` — and
/// the parent cell that an accepted store update then publishes is itself
/// verified at `v`.
pub proof fn lemma_reuse_soundness(
    verified: VersionRanges,
    outcomes: Seq<Result<VersionRanges, DiceError>>,
    v: int,
    old_entry: Option<crate::store::VersionedGraphEntry>,
    new_e: crate::store::VersionedGraphEntry,
    content: Seq<char>,
    storage: crate::value::StorageType,
    dep_ids: Seq<DiceKey>,
)
    requires
        deps_unchanged(verified, outcomes),
        forall|i: int|
            0 <= i < outcomes.len() ==> ((#[trigger] outcomes[i]) matches Ok(rs) ==> rs.contains(
                v,
            )),
        crate::store::entry_updated(old_entry, new_e, content, v, storage, dep_ids),
    ensures
        forall|i: int|
            0 <= i < outcomes.len() ==> ((#[trigger] outcomes[i]) matches Ok(rs) && rs.contains(
                v,
            )),
        new_e.history.contains(v),
{
    let w = choose|w: int|
        #[trigger] commonly_verified_upto(verified, outcomes, outcomes.len() as int, w);
    assert forall|i: int|
        0 <= i < outcomes.len() implies ((#[trigger] outcomes[i]) matches Ok(rs) && rs.contains(
        v,
    )) by {
        assert(dep_ok_contains(outcomes[i], w));
    }
}

} // verus!
