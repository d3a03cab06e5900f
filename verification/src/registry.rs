//! The task registry: at most one task per key.
//!
//! The registry maps a key id to the task currently standing for it, if any.
//! A new request for a key attaches to an existing task that is usable (born
//! for the same version and epoch, not cancelled, and either still running or
//! finished with a value); a cancelled task is replaced by a successor that
//! is given the prior task so it can adopt a finished-in-the-race result;
//! anything else — no task, a stale version or epoch, or a task finished with
//! an error (errors are never served to new requesters) — leads to a fresh
//! task. A task finished at one version is thus never served at another: a
//! new version always goes back through the store's dependency check.

use vstd::prelude::*;
use vstd::pervasive::VecAdditionalExecFns;
use crate::key::DiceKey;
use crate::task::DiceTask;
use crate::versions::VersionEpoch;
use crate::versions::VersionNumber;

verus! {

/// What a new request for a key must do.
#[derive(Clone, Copy, PartialEq, Eq, Structural, Debug)]
pub enum RequestDecision {
    /// A usable task exists: share it.
    Attach,
    /// No usable task: make a new one.
    SpawnFresh,
    /// The standing task is cancelled: make a successor that may adopt it.
    SpawnWithPrevious,
}

/// The decision rule for a request at version `v` and `epoch`, given the
/// key's slot.
pub open spec fn decide_spec(
    slot: Option<DiceTask>,
    v: VersionNumber,
    epoch: VersionEpoch,
) -> RequestDecision {
    match slot {
        Option::None => RequestDecision::SpawnFresh,
        Option::Some(t) => if t.spec_is_cancelled() || t.state is Cancelled {
            RequestDecision::SpawnWithPrevious
        } else if t.version != v || t.version_epoch != epoch {
            RequestDecision::SpawnFresh
        } else if t.state matches crate::task::DiceTaskState::Finished(res) && res is Err {
            RequestDecision::SpawnFresh
        } else {
            RequestDecision::Attach
        },
    }
}

/// The registry of standing tasks, indexed by compact key id.
pub struct TaskRegistry {
    pub slots: Vec<Option<DiceTask>>,
}

impl TaskRegistry {
    /// Each slot holds a task for its own key.
    pub open spec fn wf(self) -> bool {
        forall|i: int|
            0 <= i < self.slots@.len() ==> ((#[trigger] self.slots@[i]) matches Some(t) ==> t.key.index
                == i && t.result_history_wf())
    }

    /// The task standing for a key, if any. Keys beyond the registry's extent
    /// hold nothing.
    pub open spec fn spec_slot(self, k: int) -> Option<DiceTask> {
        if 0 <= k < self.slots@.len() {
            self.slots@[k]
        } else {
            None
        }
    }

    pub fn new() -> (r: Self)
        ensures
            r.wf(),
            forall|k: int| #[trigger] r.spec_slot(k) is None,
    {
        TaskRegistry { slots: Vec::new() }
    }

    /// Decide what a request for `k` at version `v` and `epoch` must do.
    pub fn decide(&self, k: DiceKey, v: VersionNumber, epoch: VersionEpoch) -> (r: RequestDecision)
        ensures
            r == decide_spec(self.spec_slot(k.index as int), v, epoch),
    {
        let idx = k.index as usize;
        if idx >= self.slots.len() {
            return RequestDecision::SpawnFresh;
        }
        match &self.slots[idx] {
            Option::None => RequestDecision::SpawnFresh,
            Option::Some(t) => {
                if (t.cancellation_requested && !t.cancellation_disabled) || matches!(
                    t.state,
                    crate::task::DiceTaskState::Cancelled,
                ) {
                    RequestDecision::SpawnWithPrevious
                } else if t.version != v || t.version_epoch != epoch {
                    RequestDecision::SpawnFresh
                } else {
                    match &t.state {
                        crate::task::DiceTaskState::Finished(Result::Err(_)) => {
                            RequestDecision::SpawnFresh
                        },
                        _ => RequestDecision::Attach,
                    }
                }
            },
        }
    }

    /// Take the task standing for `k` out of the registry, leaving the slot
    /// empty. Slots are grown on demand.
    pub fn take(&mut self, k: DiceKey) -> (r: Option<DiceTask>)
        requires
            old(self).wf(),
        ensures
            final(self).wf(),
            r == old(self).spec_slot(k.index as int),
            final(self).spec_slot(k.index as int) is None,
            forall|j: int|
                j != k.index as int ==> #[trigger] final(self).spec_slot(j) == old(self).spec_slot(
                    j,
                ),
            old(self).slots@.len() <= final(self).slots@.len(),
            k.index < final(self).slots@.len(),
    {
        let idx = k.index as usize;
        let ghost pre = *self;
        while self.slots.len() <= idx
            invariant
                pre.slots@.len() <= self.slots@.len(),
                forall|t: int|
                    0 <= t < self.slots@.len() ==> #[trigger] self.slots@[t] == pre.spec_slot(t),
            decreases idx + 1 - self.slots@.len(),
        {
            self.slots.push(Option::None);
        }
        let mut taken: Option<DiceTask> = Option::None;
        self.slots.set_and_swap(idx, &mut taken);
        taken
    }

    /// Install the task standing for `k`, superseding whatever stood there.
    pub fn put(&mut self, k: DiceKey, task: DiceTask)
        requires
            old(self).wf(),
            k.index < old(self).slots@.len(),
            task.key == k,
            task.result_history_wf(),
        ensures
            final(self).wf(),
            final(self).spec_slot(k.index as int) == Some(task),
            forall|j: int|
                j != k.index as int ==> #[trigger] final(self).spec_slot(j) == old(self).spec_slot(
                    j,
                ),
            final(self).slots@.len() == old(self).slots@.len(),
    {
        self.slots.set(k.index as usize, Some(task));
    }
}

/// At most one task stands for a key at any instant: the registry holds one
/// slot per key, so two registered tasks for the same key are the same slot.
pub proof fn lemma_at_most_one_in_flight(r: TaskRegistry, i: int, j: int)
    requires
        r.wf(),
        0 <= i < r.slots@.len(),
        0 <= j < r.slots@.len(),
        r.slots@[i] matches Some(t1) && r.slots@[j] matches Some(t2) && t1.key == t2.key,
    ensures
        i == j,
{
}

/// Errors are not served to new requesters: a request that finds the standing
/// task finished with an error spawns afresh, re-invoking the evaluator.
pub proof fn lemma_no_error_caching(
    t: DiceTask,
    e: crate::value::DiceError,
    v: VersionNumber,
    epoch: VersionEpoch,
)
    requires
        !t.spec_is_cancelled(),
        t.state == crate::task::DiceTaskState::Finished(
            Result::<crate::value::DiceComputedValue, crate::value::DiceError>::Err(e),
        ),
    ensures
        decide_spec(Some(t), v, epoch) == RequestDecision::SpawnFresh,
{
}

/// A usable task is shared, not recomputed: a request that finds a task born
/// for the same version and epoch, not cancelled and not finished with an
/// error, attaches to it and spawns nothing.
pub proof fn lemma_deduplication(t: DiceTask, v: VersionNumber, epoch: VersionEpoch)
    requires
        !t.spec_is_cancelled(),
        !(t.state is Cancelled),
        t.version == v,
        t.version_epoch == epoch,
        !(t.state matches crate::task::DiceTaskState::Finished(res) && res is Err),
    ensures
        decide_spec(Some(t), v, epoch) == RequestDecision::Attach,
{
}

/// A task born for another version is never served: the request spawns afresh
/// and goes back through the store's dependency check.
pub proof fn lemma_no_cross_version_reuse(t: DiceTask, v: VersionNumber, epoch: VersionEpoch)
    requires
        !t.spec_is_cancelled(),
        !(t.state is Cancelled),
        t.version != v,
    ensures
        decide_spec(Some(t), v, epoch) == RequestDecision::SpawnFresh,
{
}

} // verus!
