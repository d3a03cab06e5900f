//! The incremental engine.
//!
//! The engine manages the handling of the results of a specific key,
//! recomputing only when necessary. A request for a key at a version asks the
//! store to classify it: a live cached value answers immediately; a cached
//! value whose dependencies may have changed is re-validated by resolving
//! those dependencies first and reused iff none changed; otherwise the user
//! evaluator runs and its result — unless it is transient, an error, or beaten
//! by cancellation — is written back to the store. Identical requests (same
//! key and version) share one task, so a computation runs at most once.
//!
//! One engine instance stands for one evaluation context: a version together
//! with a version epoch. The store outlives engine instances; updates stamped
//! with a stale epoch are discarded by the store.

use vstd::prelude::*;
use vstd::pervasive::unreached;
use crate::activation::ActivationData;
use crate::activation::ActivationTracker;
use crate::activation::activation_recorded;
use crate::activation::all_keys_valid;
use crate::activation::keys_valid;
use crate::activation::report_key_activation;
use crate::deps::DidDepsChange;
use crate::deps::did_deps_change;
use crate::evaluator::AsyncEvaluator;
use crate::evaluator::EvalOutput;
use crate::evaluator::SyncEvaluator;
use crate::events::DiceEvent;
use crate::events::DiceEventDispatcher;
use crate::events::seq_extends;
use crate::key::DiceKey;
use crate::key::DiceKeyIndex;
use crate::key::ParentKey;
use crate::registry::RequestDecision;
use crate::registry::TaskRegistry;
use crate::store::VersionedGraphResult;
use crate::store::VersionedGraphStore;
use crate::store::entry_updated;
use crate::task::DiceTask;
use crate::task::DiceTaskState;
use crate::task::PreviouslyCancelledTask;
use crate::task::TerminationStatus;
use crate::task::result_model;
use crate::value::DiceComputedValue;
use crate::value::DiceError;
use crate::versions::VersionEpoch;
use crate::versions::VersionNumber;
use crate::versions::VersionRanges;
use crate::cycles::UserCycleDetector;

verus! {

/// The engine driving one evaluation context: the shared store together with
/// the epoch this context runs in.
pub struct IncrementalEngine {
    pub state: VersionedGraphStore,
    pub version_epoch: VersionEpoch,
}

/// Will a successor task adopt this predecessor's result: one was handed in,
/// it finished in the race, and it was born for this very version and epoch?
pub open spec fn spec_adopts(
    prev: Option<PreviouslyCancelledTask>,
    v: VersionNumber,
    epoch: VersionEpoch,
) -> bool {
    prev matches Some(p) && p.previous.state is Finished && p.previous.version == v
        && p.previous.version_epoch == epoch
}

impl IncrementalEngine {
    pub fn new(state: VersionedGraphStore, version_epoch: VersionEpoch) -> (r: Self)
        ensures
            r.state == state,
            r.version_epoch == version_epoch,
    {
        IncrementalEngine { state, version_epoch }
    }

    /// Commit the outcome of an evaluator run for `k` at `v`.
    ///
    /// This is the commit point against cancellation: if the task's
    /// cancellation was requested before it could be disabled, the store is
    /// not touched and nothing is reported — a computed value is still
    /// recorded on the task (cancelled-but-finished, open to adoption by a
    /// successor), while an error terminates the task as cancelled.
    /// Otherwise an error is published uncached, a transient value is
    /// published verified only at `v` without touching the store, and a valid
    /// value is offered to the store, whose reply — authoritative even when
    /// this engine's epoch went stale — is published.
    #[verifier::rlimit(60)]
    pub fn finish_computation(
        &mut self,
        k: DiceKey,
        v: VersionNumber,
        eval_result: Result<EvalOutput, DiceError>,
        key_index: &DiceKeyIndex,
        tracker: &mut ActivationTracker,
        task: &mut DiceTask,
    )
        requires
            old(self).state.wf(),
            !old(task).spec_is_terminal(),
            v < u64::MAX,
        ensures
            final(self).version_epoch == old(self).version_epoch,
            final(self).state.current_epoch == old(self).state.current_epoch,
            final(self).state.wf(),
            final(task).same_key_epoch(*old(task)),
            final(task).spec_is_terminal(),
            final(task).result_history_wf(),
            final(tracker).enabled == old(tracker).enabled,
            seq_extends(final(tracker).log@, old(tracker).log@),
            !old(task).spec_is_cancelled() ==> final(task).state is Finished,
            old(self).version_epoch == old(self).state.current_epoch ==> match final(task).state {
                DiceTaskState::Finished(res) => match res {
                    Ok(cv) => cv.history.contains(v as int),
                    Err(_) => true,
                },
                _ => true,
            },
            // cancellation wins the race: discard
            old(task).spec_is_cancelled() ==> {
                &&& *final(self) == *old(self)
                &&& *final(tracker) == *old(tracker)
                &&& match eval_result {
                    Ok(out) => final(task).state matches DiceTaskState::Finished(res) && (
                    res matches Ok(cv) && cv@.value == out.value@ && (forall|w: int|
                        #[trigger] cv.history.contains(w) <==> w == v as int)),
                    Err(_) => final(task).state is Cancelled,
                }
            },
            // the commit goes through
            !old(task).spec_is_cancelled() ==> {
                &&& final(task).cancellation_disabled
                &&& match eval_result {
                    Err(e) => *final(self) == *old(self) && final(task).state
                        == DiceTaskState::Finished(Err(e)) && *final(tracker) == *old(tracker),
                    Ok(out) => {
                    // exactly one activation is reported, as an evaluation of
                    // the recorded dependencies; ids the index never handed
                    // out cannot be mapped to user keys and report nothing
                    &&& ((old(tracker).enabled && key_index.key_valid(k) && keys_valid(
                        *key_index,
                        out.deps@,
                    )) ==> final(tracker).log@.len() == old(tracker).log@.len() + 1
                        && activation_recorded(
                        final(tracker).log@.last(),
                        *key_index,
                        k,
                        out.deps@,
                        ActivationData::Evaluated,
                    ))
                    &&& (!(old(tracker).enabled && key_index.key_valid(k) && keys_valid(
                        *key_index,
                        out.deps@,
                    )) ==> *final(tracker) == *old(tracker))
                    &&& if out.value@.validity is Transient {
                        &&& *final(self) == *old(self)
                        &&& final(task).state matches DiceTaskState::Finished(res) && (
                        res matches Ok(cv) && cv@.value == out.value@ && (forall|w: int|
                            #[trigger] cv.history.contains(w) <==> w == v as int))
                    } else {
                        &&& (old(self).version_epoch == old(self).state.current_epoch ==> {
                            &&& forall|j: int|
                                j != k.index as int ==> #[trigger] final(self).state.spec_entry(j)
                                    == old(self).state.spec_entry(j)
                            &&& final(self).state.spec_entry(k.index as int) matches Some(e2)
                                && entry_updated(
                                old(self).state.spec_entry(k.index as int),
                                e2,
                                out.value@.content,
                                v as int,
                                out.storage,
                                out.deps@,
                            ) && (final(task).state matches DiceTaskState::Finished(res) && (
                            res matches Ok(cv) && cv@.value.content == e2.value@
                                && cv@.value.validity is Valid && cv@.history
                                == e2.history.ranges@))
                        })
                        &&& (old(self).version_epoch != old(self).state.current_epoch
                            ==> *final(self) == *old(self) && (
                        final(task).state matches DiceTaskState::Finished(res) && res is Ok))
                    }
                    },
                }
            },
    {
        let proceed = task.try_to_disable_cancellation();
        if !proceed {
            match eval_result {
                Ok(out) => {
                    let h = VersionRanges::verified(v);
                    let cv = DiceComputedValue::new(out.value, h);
                    proof {
                        assert(cv.history.contains(v as int));
                    }
                    task.finished(Ok(cv));
                },
                Err(_) => {
                    task.terminate_cancelled();
                },
            }
            return ;
        }
        match eval_result {
            Ok(out) => {
                let EvalOutput { value, storage, deps } = out;
                if (k.index as usize) < key_index.len() && all_keys_valid(key_index, &deps) {
                    report_key_activation(
                        key_index,
                        tracker,
                        k,
                        &deps,
                        ActivationData::Evaluated,
                    );
                }
                match value.into_valid_value() {
                    Ok(valid) => {
                        let response = self.state.update_computed(
                            k,
                            v,
                            self.version_epoch,
                            storage,
                            valid,
                            deps,
                        );
                        proof {
                            self.state.lemma_entry_history_wf(k.index as int);
                            if old(self).version_epoch == old(self).state.current_epoch {
                                match self.state.spec_entry(k.index as int) {
                                    Some(e2) => {
                                        assert(e2.history.contains(v as int));
                                        assert(response.history.contains(v as int));
                                    },
                                    None => {
                                        assert(false);
                                    },
                                }
                            }
                        }
                        task.finished(Ok(response));
                    },
                    Err(transient) => {
                        let h = VersionRanges::verified(v);
                        let cv = DiceComputedValue::new(transient, h);
                        proof {
                            assert(cv.history.contains(v as int));
                        }
                        task.finished(Ok(cv));
                    },
                }
            },
            Err(e) => {
                task.finished(Err(e));
            },
        }
    }

    /// Run the evaluator for `k` at `v` and commit its outcome. Emits
    /// `Started` and `Finished` around the whole attempt and nothing else.
    pub fn compute<E: AsyncEvaluator, C: UserCycleDetector>(
        &mut self,
        k: DiceKey,
        v: VersionNumber,
        eval: &mut E,
        cycles: &mut C,
        key_index: &DiceKeyIndex,
        events: &mut DiceEventDispatcher,
        tracker: &mut ActivationTracker,
        task: &mut DiceTask,
    )
        requires
            old(self).state.wf(),
            !old(task).spec_is_terminal(),
            v < u64::MAX,
        ensures
            final(self).version_epoch == old(self).version_epoch,
            final(self).state.current_epoch == old(self).state.current_epoch,
            final(self).state.wf(),
            final(task).same_key_epoch(*old(task)),
            final(task).spec_is_terminal(),
            final(task).result_history_wf(),
            !old(task).spec_is_cancelled() ==> final(task).state is Finished,
            final(events).log@ == old(events).log@.push(
                crate::events::DiceEvent::Started { key: k },
            ).push(crate::events::DiceEvent::Finished { key: k }),
            final(tracker).enabled == old(tracker).enabled,
            seq_extends(final(tracker).log@, old(tracker).log@),
            old(self).version_epoch == old(self).state.current_epoch ==> match final(task).state {
                DiceTaskState::Finished(res) => match res {
                    Ok(cv) => cv.history.contains(v as int),
                    Err(_) => true,
                },
                _ => true,
            },
            old(task).spec_is_cancelled() ==> *final(self) == *old(self) && *final(tracker)
                == *old(tracker),
            (!old(task).spec_is_cancelled() && (final(task).state matches DiceTaskState::Finished(
                res,
            ) && res is Err)) ==> *final(self) == *old(self) && *final(tracker) == *old(tracker),
    {
        task.computing();
        events.started(k);
        let eval_result = eval.evaluate(k);
        self.finish_computation(k, v, eval_result, key_index, tracker, task);
        events.finished(k);
    }

    /// Resolve each recorded dependency of a key at `v` and decide whether
    /// any changed. Each dependency goes through the cycle detector and — up
    /// to the remaining depth budget — through a full engine request; the
    /// verdict over the outcomes is `did_deps_change`, whose contract defines
    /// exactly when each verdict is returned. An empty dependency list is
    /// answered `NoDeps` immediately, resolving nothing.
    #[verifier::loop_isolation(false)]
    pub fn compute_whether_dependencies_changed<E: AsyncEvaluator, C: UserCycleDetector>(
        &mut self,
        registry: &mut TaskRegistry,
        parent_key: ParentKey,
        v: VersionNumber,
        verified_versions: &VersionRanges,
        deps: &Vec<DiceKey>,
        eval: &mut E,
        cycles: &mut C,
        key_index: &DiceKeyIndex,
        events: &mut DiceEventDispatcher,
        tracker: &mut ActivationTracker,
        limit: usize,
    ) -> (r: DidDepsChange)
        requires
            old(self).state.wf(),
            old(registry).wf(),
            verified_versions.wf(),
            v < u64::MAX,
        ensures
            final(self).version_epoch == old(self).version_epoch,
            final(self).state.current_epoch == old(self).state.current_epoch,
            final(self).state.wf(),
            final(registry).wf(),
            old(registry).slots@.len() <= final(registry).slots@.len(),
            seq_extends(final(events).log@, old(events).log@),
            seq_extends(final(tracker).log@, old(tracker).log@),
            final(tracker).enabled == old(tracker).enabled,
            (r is NoDeps) <==> deps@.len() == 0,
            r matches DidDepsChange::NoChange(ds) ==> ds@ == deps@,
            deps@.len() == 0 ==> *final(self) == *old(self) && *final(events) == *old(events)
                && *final(tracker) == *old(tracker) && (forall|j: int|
                #[trigger] final(registry).spec_slot(j) == old(registry).spec_slot(j)),
        decreases limit, 0int,
    {
        if deps.len() == 0 {
            return DidDepsChange::NoDeps;
        }
        let mut outcomes: Vec<Result<VersionRanges, DiceError>> = Vec::new();
        let mut i: usize = 0;
        while i < deps.len()
            invariant
                i <= deps@.len(),
                outcomes@.len() == i,
                forall|t: int|
                    0 <= t < outcomes@.len() ==> ((#[trigger] outcomes@[t]) matches Ok(rs)
                        ==> rs.wf()),
                self.state.wf(),
                registry.wf(),
                self.version_epoch == old(self).version_epoch,
                self.state.current_epoch == old(self).state.current_epoch,
                old(registry).slots@.len() <= registry.slots@.len(),
                seq_extends(events.log@, old(events).log@),
                seq_extends(tracker.log@, old(tracker).log@),
                tracker.enabled == old(tracker).enabled,
            decreases deps@.len() - i,
        {
            let dep = deps[i];
            let allowed = cycles.subrequest(parent_key, dep);
            let outcome: Result<VersionRanges, DiceError> = if !allowed {
                Err(DiceError::Cycle)
            } else if limit == 0 {
                Err(DiceError::RecursionLimit)
            } else {
                match self.request(
                    registry,
                    dep,
                    v,
                    eval,
                    cycles,
                    key_index,
                    events,
                    tracker,
                    limit - 1,
                ) {
                    Ok(cv) => Ok(cv.history),
                    Err(e) => Err(e),
                }
            };
            outcomes.push(outcome);
            i += 1;
        }
        did_deps_change(verified_versions, deps, &outcomes)
    }

    /// Settle `k` at `v` for the given task: ask the store, then match,
    /// check-deps-and-reuse, or compute, and publish on the task.
    #[verifier::loop_isolation(false)]
    #[verifier::rlimit(100)]
    pub fn eval_entry_versioned<E: AsyncEvaluator, C: UserCycleDetector>(
        &mut self,
        registry: &mut TaskRegistry,
        k: DiceKey,
        v: VersionNumber,
        eval: &mut E,
        cycles: &mut C,
        key_index: &DiceKeyIndex,
        events: &mut DiceEventDispatcher,
        tracker: &mut ActivationTracker,
        task: &mut DiceTask,
        limit: usize,
    )
        requires
            old(self).state.wf(),
            old(registry).wf(),
            !old(task).spec_is_terminal(),
            v < u64::MAX,
        ensures
            final(self).version_epoch == old(self).version_epoch,
            final(self).state.current_epoch == old(self).state.current_epoch,
            final(self).state.wf(),
            final(registry).wf(),
            old(registry).slots@.len() <= final(registry).slots@.len(),
            final(task).same_key_epoch(*old(task)),
            final(task).spec_is_terminal(),
            final(task).result_history_wf(),
            !old(task).spec_is_cancelled() ==> final(task).state is Finished,
            seq_extends(final(events).log@, old(events).log@),
            seq_extends(final(tracker).log@, old(tracker).log@),
            final(tracker).enabled == old(tracker).enabled,
            // deduplication: a live cached value answers with no store
            // change, no event, and no evaluator run
            match old(self).state.spec_entry(k.index as int) {
                Some(e) => e.history.contains(v as int) ==> {
                    &&& *final(self) == *old(self)
                    &&& *final(events) == *old(events)
                    &&& *final(tracker) == *old(tracker)
                    &&& forall|j: int|
                        #[trigger] final(registry).spec_slot(j) == old(registry).spec_slot(j)
                    &&& final(task).state matches DiceTaskState::Finished(res) && (
                    res matches Ok(cv) && cv@.value.content == e.value@ && cv@.value.validity
                        is Valid && cv@.history == e.history.ranges@)
                },
                None => true,
            },
            // published results are verified at the requested version
            old(self).version_epoch == old(self).state.current_epoch ==> match final(task).state {
                DiceTaskState::Finished(res) => match res {
                    Ok(cv) => cv.history.contains(v as int),
                    Err(_) => true,
                },
                _ => true,
            },
            // a key with nothing cached goes straight to the evaluator,
            // bracketed by exactly its lifecycle pair
            old(self).state.spec_entry(k.index as int) is None ==> final(events).log@ == old(
                events,
            ).log@.push(DiceEvent::Started { key: k }).push(DiceEvent::Finished { key: k }),
            // a cached value that is not live is re-validated first: the
            // dependency check is bracketed by its events and is followed
            // either by nothing — the cached value was reused and reported so
            // — or by exactly the evaluator's bracket
            match old(self).state.spec_entry(k.index as int) {
                Some(e) => !e.history.contains(v as int) ==> {
                    let oldlen = old(events).log@.len() as int;
                    let newlog = final(events).log@;
                    &&& newlog.len() > oldlen + 1
                    &&& newlog[oldlen] == (DiceEvent::CheckDepsStarted { key: k })
                    &&& exists|m: int|
                        oldlen < m < newlog.len() && (#[trigger] newlog[m]) == (
                        DiceEvent::CheckDepsFinished { key: k }) && ((m == newlog.len() - 1 && (
                        final(task).state matches DiceTaskState::Finished(res) && (res matches Ok(
                            cv,
                        ) && cv@.value.validity is Valid && (old(self).version_epoch == old(
                            self,
                        ).state.current_epoch ==> cv@.value.content == e.value@))) && ((old(
                            tracker,
                        ).enabled && key_index.key_valid(k) && keys_valid(*key_index, e.deps@))
                            ==> final(tracker).log@.len() > 0 && activation_recorded(
                            final(tracker).log@.last(),
                            *key_index,
                            k,
                            e.deps@,
                            ActivationData::Reused,
                        ))) || (m == newlog.len() - 3 && newlog[newlog.len() - 2] == (
                        DiceEvent::Started { key: k }) && newlog[newlog.len() - 1] == (
                        DiceEvent::Finished { key: k })))
                },
                None => true,
            },
        decreases limit, 1int,
    {
        let lookup_result = self.state.lookup_key(k, v);
        match lookup_result {
            VersionedGraphResult::Match(entry) => {
                proof {
                    self.state.lemma_entry_history_wf(k.index as int);
                }
                task.finished(Ok(entry));
            },
            VersionedGraphResult::Compute => {
                cycles.start_computing_key(k);
                self.compute(k, v, eval, cycles, key_index, events, tracker, task);
            },
            VersionedGraphResult::CheckDeps(mismatch) => {
                cycles.start_computing_key(k);
                task.checking_deps();
                let ghost oldlen = events.log@.len() as int;
                events.check_deps_started(k);
                let deps_changed = self.compute_whether_dependencies_changed(
                    registry,
                    ParentKey::Key(k),
                    v,
                    &mismatch.verified_versions,
                    &mismatch.deps_to_validate,
                    eval,
                    cycles,
                    key_index,
                    events,
                    tracker,
                    limit,
                );
                let ghost m = events.log@.len() as int;
                events.check_deps_finished(k);
                proof {
                    assert(events.log@[oldlen] == (DiceEvent::CheckDepsStarted { key: k }));
                    assert(events.log@[m] == (DiceEvent::CheckDepsFinished { key: k }));
                }
                match deps_changed {
                    DidDepsChange::Changed | DidDepsChange::NoDeps => {
                        self.compute(k, v, eval, cycles, key_index, events, tracker, task);
                        proof {
                            assert(events.log@[oldlen] == (DiceEvent::CheckDepsStarted { key: k }));
                            assert(events.log@[m] == (DiceEvent::CheckDepsFinished { key: k }));
                            assert(m == events.log@.len() - 3);
                        }
                    },
                    DidDepsChange::NoChange(deps) => {
                        cycles.finished_computing_key(k);
                        if (k.index as usize) < key_index.len() && all_keys_valid(
                            key_index,
                            &deps,
                        ) {
                            report_key_activation(
                                key_index,
                                tracker,
                                k,
                                &deps,
                                ActivationData::Reused,
                            );
                        }
                        let storage = eval.storage_type(k);
                        let response = self.state.update_computed(
                            k,
                            v,
                            self.version_epoch,
                            storage,
                            mismatch.entry,
                            deps,
                        );
                        proof {
                            self.state.lemma_entry_history_wf(k.index as int);
                            if old(self).version_epoch == old(self).state.current_epoch {
                                match self.state.spec_entry(k.index as int) {
                                    Some(e2) => {
                                        assert(e2.history.contains(v as int));
                                        assert(response.history.contains(v as int));
                                        assert(response@.value.content == e2.value@);
                                    },
                                    None => {
                                        assert(false);
                                    },
                                }
                            }
                            assert(events.log@[oldlen] == (
                            DiceEvent::CheckDepsStarted { key: k }));
                            assert(events.log@[m] == (DiceEvent::CheckDepsFinished { key: k }));
                            assert(m == events.log@.len() - 1);
                        }
                        task.finished(Ok(response));
                    },
                }
            },
        }
    }

    /// Make and drive the task standing for `k` at `v`. When a previously
    /// cancelled task for the key is handed in, its termination is awaited
    /// before anything is looked up or evaluated: a predecessor that finished
    /// in the race — for this very version and epoch — has its result adopted
    /// and published without evaluating anything; one that terminated without
    /// a result, or belongs to another version or epoch, is superseded, and
    /// the engine evaluates exactly as if no predecessor had been handed in.
    pub fn spawn_for_key<E: AsyncEvaluator, C: UserCycleDetector>(
        &mut self,
        registry: &mut TaskRegistry,
        k: DiceKey,
        v: VersionNumber,
        eval: &mut E,
        cycles: &mut C,
        key_index: &DiceKeyIndex,
        events: &mut DiceEventDispatcher,
        tracker: &mut ActivationTracker,
        previously_cancelled_task: Option<PreviouslyCancelledTask>,
        limit: usize,
    ) -> (t: DiceTask)
        requires
            old(self).state.wf(),
            old(registry).wf(),
            v < u64::MAX,
            previously_cancelled_task matches Some(p) ==> p.previous.result_history_wf(),
        ensures
            final(self).version_epoch == old(self).version_epoch,
            final(self).state.current_epoch == old(self).state.current_epoch,
            final(self).state.wf(),
            final(registry).wf(),
            old(registry).slots@.len() <= final(registry).slots@.len(),
            seq_extends(final(events).log@, old(events).log@),
            seq_extends(final(tracker).log@, old(tracker).log@),
            final(tracker).enabled == old(tracker).enabled,
            t.key == k,
            t.version == v,
            t.version_epoch == old(self).version_epoch,
            t.state is Finished,
            t.result_history_wf(),
            // adoption: a cancelled-but-finished predecessor of this very
            // version and epoch is published as is — nothing is evaluated,
            // stored, or reported
            match previously_cancelled_task {
                Some(p) => match p.previous.state {
                    DiceTaskState::Finished(res) => (p.previous.version == v
                        && p.previous.version_epoch == old(self).version_epoch) ==> {
                        &&& *final(self) == *old(self)
                        &&& *final(events) == *old(events)
                        &&& *final(tracker) == *old(tracker)
                        &&& forall|j: int|
                            #[trigger] final(registry).spec_slot(j) == old(registry).spec_slot(j)
                        &&& t.state matches DiceTaskState::Finished(r2) && result_model(r2)
                            == result_model(res)
                    },
                    _ => true,
                },
                None => true,
            },
            // when nothing is adopted — no predecessor, or one that did not
            // finish, or one for another version or epoch — a live cached
            // value answers untouched, exactly as on a fresh request
            !spec_adopts(previously_cancelled_task, v, old(self).version_epoch) ==> match old(
                self,
            ).state.spec_entry(k.index as int) {
                Some(e) => e.history.contains(v as int) ==> {
                    &&& *final(self) == *old(self)
                    &&& *final(events) == *old(events)
                    &&& *final(tracker) == *old(tracker)
                    &&& forall|j: int|
                        #[trigger] final(registry).spec_slot(j) == old(registry).spec_slot(j)
                    &&& t.state matches DiceTaskState::Finished(res) && (res matches Ok(cv)
                        && cv@.value.content == e.value@ && cv@.history == e.history.ranges@)
                },
                None => true,
            },
        decreases limit, 2int,
    {
        let mut task = DiceTask::new(k, v, self.version_epoch);
        match previously_cancelled_task {
            Some(p) => {
                match p.previous.termination_status() {
                    TerminationStatus::Finished => {
                        if p.previous.version == v && p.previous.version_epoch
                            == self.version_epoch {
                            // the predecessor actually finished: adopt its result
                            match p.previous.get_finished_value() {
                                Some(res) => {
                                    task.finished(res);
                                    return task;
                                },
                                None => {
                                    return unreached();
                                },
                            }
                        }
                    },
                    TerminationStatus::Cancelled => {},
                }
            },
            None => {},
        }
        self.eval_entry_versioned(
            registry,
            k,
            v,
            eval,
            cycles,
            key_index,
            events,
            tracker,
            &mut task,
            limit,
        );
        task
    }

    /// Settle `k` at `v` synchronously (a "projection": user code the caller
    /// guarantees is pure and cheap). The promise to the standing task is
    /// completed: a finished task answers immediately; otherwise the
    /// synchronous evaluator runs inline, a valid value is written to the
    /// store (blocking until the store has it, for simpler visibility), and
    /// the evaluator's own value — verified at `v` alone — is published and
    /// returned. The store is not asked first: the caller has already
    /// resolved that the key is missing.
    pub fn project_for_key<SE: SyncEvaluator>(
        &mut self,
        task: &mut DiceTask,
        k: DiceKey,
        v: VersionNumber,
        eval: &mut SE,
        events: &mut DiceEventDispatcher,
    ) -> (r: Result<DiceComputedValue, DiceError>)
        requires
            old(self).state.wf(),
            v < u64::MAX,
            !(old(task).state is Cancelled),
            old(task).result_history_wf(),
        ensures
            final(self).version_epoch == old(self).version_epoch,
            final(self).state.current_epoch == old(self).state.current_epoch,
            final(self).state.wf(),
            final(task).same_key_epoch(*old(task)),
            final(task).state is Finished,
            final(task).result_history_wf(),
            r matches Ok(cv) ==> cv.history.wf(),
            // a finished task answers immediately; nothing else happens
            match old(task).state {
                DiceTaskState::Finished(res) => {
                    &&& *final(self) == *old(self)
                    &&& *final(events) == *old(events)
                    &&& *final(task) == *old(task)
                    &&& result_model(r) == result_model(res)
                },
                _ => true,
            },
            // otherwise the synchronous evaluator runs exactly once
            !old(task).spec_is_terminal() ==> {
                &&& final(events).log@ == old(events).log@.push(
                    crate::events::DiceEvent::Started { key: k },
                ).push(crate::events::DiceEvent::Finished { key: k })
                &&& (r matches Ok(cv) ==> forall|w: int|
                    #[trigger] cv.history.contains(w) <==> w == v as int)
                &&& final(task).state matches DiceTaskState::Finished(res2) && result_model(res2)
                    == result_model(r)
                &&& forall|j: int|
                    j != k.index as int ==> #[trigger] final(self).state.spec_entry(j) == old(
                        self,
                    ).state.spec_entry(j)
                &&& (old(self).version_epoch != old(self).state.current_epoch ==> *final(self)
                    == *old(self))
                &&& (r is Err ==> *final(self) == *old(self))
            },
    {
        match &task.state {
            DiceTaskState::Finished(res) => {
                return crate::task::duplicate_result(res);
            },
            _ => {},
        }
        events.started(k);
        let eval_result = eval.evaluate(k);
        let r = self.finish_projection(k, v, eval_result, task);
        events.finished(k);
        r
    }

    /// Commit the outcome of a synchronous projection for `k` at `v` and
    /// complete the promise. A valid value is offered to the store — whose
    /// acceptance is governed by the epoch — while a transient value or an
    /// error leaves the store untouched. What is published and returned is in
    /// every case the evaluator's own outcome: its value under the singleton
    /// history `[v, v+1)`, or its error as given.
    pub fn finish_projection(
        &mut self,
        k: DiceKey,
        v: VersionNumber,
        eval_result: Result<EvalOutput, DiceError>,
        task: &mut DiceTask,
    ) -> (r: Result<DiceComputedValue, DiceError>)
        requires
            old(self).state.wf(),
            !old(task).spec_is_terminal(),
            v < u64::MAX,
        ensures
            final(self).version_epoch == old(self).version_epoch,
            final(self).state.current_epoch == old(self).state.current_epoch,
            final(self).state.wf(),
            final(task).same_key_epoch(*old(task)),
            final(task).result_history_wf(),
            final(task).state matches DiceTaskState::Finished(res2) && result_model(res2)
                == result_model(r),
            r matches Ok(cv) ==> cv.history.wf(),
            forall|j: int|
                j != k.index as int ==> #[trigger] final(self).state.spec_entry(j) == old(
                    self,
                ).state.spec_entry(j),
            match eval_result {
                Err(e) => *final(self) == *old(self) && (r matches Err(e2) && e2 == e),
                Ok(out) => {
                    &&& r matches Ok(cv) && cv@.value == out.value@ && (forall|w: int|
                        #[trigger] cv.history.contains(w) <==> w == v as int)
                    &&& (out.value@.validity is Transient ==> *final(self) == *old(self))
                    &&& (out.value@.validity is Valid ==> {
                        &&& (old(self).version_epoch != old(self).state.current_epoch
                            ==> *final(self) == *old(self))
                        &&& (old(self).version_epoch == old(self).state.current_epoch ==> (
                        final(self).state.spec_entry(k.index as int) matches Some(e2)
                            && entry_updated(
                            old(self).state.spec_entry(k.index as int),
                            e2,
                            out.value@.content,
                            v as int,
                            out.storage,
                            out.deps@,
                        )))
                    })
                },
            },
    {
        let r: Result<DiceComputedValue, DiceError> = match eval_result {
            Ok(out) => {
                let EvalOutput { value, storage, deps } = out;
                let published = value.duplicate();
                match value.into_valid_value() {
                    Ok(valid) => {
                        // send the update and wait for the store to take it
                        let _response = self.state.update_computed(
                            k,
                            v,
                            self.version_epoch,
                            storage,
                            valid,
                            deps,
                        );
                    },
                    Err(_) => {},
                }
                let h = VersionRanges::verified(v);
                let cv = DiceComputedValue::new(published, h);
                proof {
                    assert(forall|w: int| #[trigger] cv.history.contains(w) <==> w == v as int);
                }
                Ok(cv)
            },
            Err(e) => Err(e),
        };
        task.finished(crate::task::duplicate_result(&r));
        r
    }

    /// Serve a request for `k` at `v`: attach to the usable task standing for
    /// the key, or make (and drive) a fresh one — handing it the cancelled
    /// predecessor, if that is what stood there — and return the settled
    /// result.
    pub fn request<E: AsyncEvaluator, C: UserCycleDetector>(
        &mut self,
        registry: &mut TaskRegistry,
        k: DiceKey,
        v: VersionNumber,
        eval: &mut E,
        cycles: &mut C,
        key_index: &DiceKeyIndex,
        events: &mut DiceEventDispatcher,
        tracker: &mut ActivationTracker,
        limit: usize,
    ) -> (r: Result<DiceComputedValue, DiceError>)
        requires
            old(self).state.wf(),
            old(registry).wf(),
            v < u64::MAX,
        ensures
            final(self).version_epoch == old(self).version_epoch,
            final(self).state.current_epoch == old(self).state.current_epoch,
            final(self).state.wf(),
            final(registry).wf(),
            old(registry).slots@.len() <= final(registry).slots@.len(),
            seq_extends(final(events).log@, old(events).log@),
            seq_extends(final(tracker).log@, old(tracker).log@),
            final(tracker).enabled == old(tracker).enabled,
            r matches Ok(cv) ==> cv.history.wf(),
            // deduplication: a usable finished task answers with no new work
            match old(registry).spec_slot(k.index as int) {
                Some(t) => match t.state {
                    DiceTaskState::Finished(res) => (!t.spec_is_cancelled() && t.version == v
                        && t.version_epoch == old(self).version_epoch && res is Ok) ==> {
                        &&& *final(self) == *old(self)
                        &&& *final(events) == *old(events)
                        &&& *final(tracker) == *old(tracker)
                        &&& forall|j: int|
                            #[trigger] final(registry).spec_slot(j) == old(registry).spec_slot(j)
                        &&& result_model(r) == result_model(res)
                    },
                    _ => true,
                },
                None => true,
            },
            // cold hit: no task stands, but a cached value is live
            old(registry).spec_slot(k.index as int) is None ==> match old(self).state.spec_entry(
                k.index as int,
            ) {
                Some(e) => e.history.contains(v as int) ==> {
                    &&& *final(self) == *old(self)
                    &&& *final(events) == *old(events)
                    &&& r matches Ok(cv) && cv@.value.content == e.value@ && cv@.history
                        == e.history.ranges@
                },
                None => true,
            },
        decreases limit, 3int,
    {
        let decision = registry.decide(k, v, self.version_epoch);
        match decision {
            RequestDecision::Attach => {
                match registry.take(k) {
                    Some(mut t) => {
                        let finished_now = match &t.state {
                            DiceTaskState::Finished(_) => true,
                            _ => false,
                        };
                        if !finished_now {
                            // no driver stands behind the task here: complete
                            // it on behalf of every awaiter
                            self.eval_entry_versioned(
                                registry,
                                k,
                                v,
                                eval,
                                cycles,
                                key_index,
                                events,
                                tracker,
                                &mut t,
                                limit,
                            );
                        }
                        let out = t.get_finished_value();
                        registry.put(k, t);
                        match out {
                            Some(res) => res,
                            None => unreached(),
                        }
                    },
                    None => unreached(),
                }
            },
            RequestDecision::SpawnFresh => {
                // discard whatever stood there: nothing, a stale task, or an
                // errored one (errors are never served to new requesters)
                let _stale = registry.take(k);
                let t = self.spawn_for_key(
                    registry,
                    k,
                    v,
                    eval,
                    cycles,
                    key_index,
                    events,
                    tracker,
                    Option::None,
                    limit,
                );
                let out = t.get_finished_value();
                registry.put(k, t);
                match out {
                    Some(res) => res,
                    None => unreached(),
                }
            },
            RequestDecision::SpawnWithPrevious => {
                match registry.take(k) {
                    Some(prev) => {
                        let t = self.spawn_for_key(
                            registry,
                            k,
                            v,
                            eval,
                            cycles,
                            key_index,
                            events,
                            tracker,
                            Some(PreviouslyCancelledTask { previous: prev }),
                            limit,
                        );
                        let out = t.get_finished_value();
                        registry.put(k, t);
                        match out {
                            Some(res) => res,
                            None => unreached(),
                        }
                    },
                    None => unreached(),
                }
            },
        }
    }
}

} // verus!
