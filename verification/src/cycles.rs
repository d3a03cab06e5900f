//! Cycle detection coupling.
//!
//! The engine tells a user-pluggable detector when it starts and finishes
//! working on a key, and asks it before each dependency subrequest whether
//! following that edge is allowed. A detector that reports a cycle turns the
//! subrequest into a dependency error: the parent is recomputed, and the true
//! error, if real, surfaces there. The engine also carries an intrinsic depth
//! bound that catches cycles even without a detector.

use vstd::prelude::*;
use crate::key::DiceKey;
use crate::key::ParentKey;

verus! {

/// A user-pluggable cycle detector. The engine calls `start_computing_key`
/// exactly once per attempt on a key before resolving any of its
/// dependencies, `subrequest` before each dependency resolution, and
/// `finished_computing_key` on the reuse path (on the compute path the
/// evaluator signals completion itself).
pub trait UserCycleDetector {
    /// The engine begins an attempt on `k`.
    fn start_computing_key(&mut self, k: DiceKey);

    /// May the engine follow the edge from `parent` to `k`? `false` reports
    /// a cycle.
    fn subrequest(&mut self, parent: ParentKey, k: DiceKey) -> bool;

    /// The engine settled `k` by reuse.
    fn finished_computing_key(&mut self, k: DiceKey);
}

/// The detector used when the user plugs none in: it allows everything.
pub struct PassiveCycleDetector {}

impl UserCycleDetector for PassiveCycleDetector {
    fn start_computing_key(&mut self, _k: DiceKey) {
    }

    fn subrequest(&mut self, _parent: ParentKey, _k: DiceKey) -> bool {
        true
    }

    fn finished_computing_key(&mut self, _k: DiceKey) {
    }
}

} // verus!
