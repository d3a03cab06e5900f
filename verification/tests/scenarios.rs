//! End-to-end scenarios driving the engine through its request path.

use dice::activation::{ActivationData, ActivationTracker};
use dice::cycles::PassiveCycleDetector;
use dice::events::{DiceEvent, DiceEventDispatcher};
use dice::evaluator::{AsyncEvaluator, EvalOutput};
use dice::incremental::IncrementalEngine;
use dice::key::{DiceKey, DiceKeyIndex};
use dice::registry::TaskRegistry;
use dice::store::{VersionedGraphResult, VersionedGraphStore};
use dice::task::{DiceTask, DiceTaskState, PreviouslyCancelledTask};
use dice::value::{DiceComputedValue, DiceError, DiceValue, StorageType, Validity};

struct TableEvaluator {
    rows: Vec<(u32, String, Vec<u32>, bool)>,
    calls: Vec<u32>,
}

impl TableEvaluator {
    fn new(rows: Vec<(u32, &str, Vec<u32>, bool)>) -> TableEvaluator {
        TableEvaluator {
            rows: rows
                .into_iter()
                .map(|(k, v, d, t)| (k, v.to_string(), d, t))
                .collect(),
            calls: Vec::new(),
        }
    }

    fn calls_for(&self, k: u32) -> usize {
        self.calls.iter().filter(|c| **c == k).count()
    }
}

impl AsyncEvaluator for TableEvaluator {
    fn evaluate(&mut self, k: DiceKey) -> Result<EvalOutput, DiceError> {
        self.calls.push(k.index);
        for (key, val, deps, transient) in &self.rows {
            if *key == k.index {
                return Ok(EvalOutput {
                    value: DiceValue {
                        content: val.clone(),
                        validity: if *transient {
                            Validity::Transient
                        } else {
                            Validity::Valid
                        },
                    },
                    storage: StorageType::Normal,
                    deps: deps.iter().map(|d| DiceKey { index: *d }).collect(),
                });
            }
        }
        Err(DiceError::Evaluation)
    }

    fn storage_type(&self, _k: DiceKey) -> StorageType {
        StorageType::Normal
    }
}

struct Harness {
    engine: IncrementalEngine,
    registry: TaskRegistry,
    cycles: PassiveCycleDetector,
    key_index: DiceKeyIndex,
    events: DiceEventDispatcher,
    tracker: ActivationTracker,
}

impl Harness {
    fn new(epoch: u64, names: &[&str]) -> Harness {
        let mut key_index = DiceKeyIndex::new();
        for n in names {
            key_index.index(&n.to_string());
        }
        Harness {
            engine: IncrementalEngine::new(VersionedGraphStore::new(epoch), epoch),
            registry: TaskRegistry::new(),
            cycles: PassiveCycleDetector {},
            key_index,
            events: DiceEventDispatcher::new(),
            tracker: ActivationTracker::new(true),
        }
    }

    fn request(
        &mut self,
        k: u32,
        v: u64,
        eval: &mut TableEvaluator,
    ) -> Result<DiceComputedValue, DiceError> {
        self.engine.request(
            &mut self.registry,
            DiceKey { index: k },
            v,
            eval,
            &mut self.cycles,
            &self.key_index,
            &mut self.events,
            &mut self.tracker,
            16,
        )
    }

}

fn content(r: &Result<DiceComputedValue, DiceError>) -> &str {
    &r.as_ref().unwrap().value.content
}

#[test]
fn s1_cold_compute_then_match() {
    let mut h = Harness::new(1, &["one"]);
    let mut eval = TableEvaluator::new(vec![(0, "a", vec![], false)]);
    let r = h.request(0, 1, &mut eval);
    assert_eq!(content(&r), "a");
    assert_eq!(eval.calls_for(0), 1);
    match h.engine.state.lookup_key(DiceKey { index: 0 }, 1) {
        VersionedGraphResult::Match(cv) => {
            assert_eq!(cv.value.content, "a");
            assert!(cv.history.contains_version(1));
        }
        _ => panic!("expected a live cached value"),
    }
}

#[test]
fn s2_reuse_across_version_without_reevaluation() {
    let mut h = Harness::new(1, &["one", "two"]);
    let mut eval = TableEvaluator::new(vec![(0, "a", vec![], false), (1, "b", vec![0], false)]);
    assert_eq!(content(&h.request(0, 1, &mut eval)), "a");
    assert_eq!(content(&h.request(1, 1, &mut eval)), "b");
    assert_eq!(eval.calls_for(1), 1);

    // version 2: no input changed, so the dependency re-verifies to "a".
    // The tasks from version 1 still stand in the registry; they are born
    // for version 1 and are not served here.
    let r = h.request(1, 2, &mut eval);
    assert_eq!(content(&r), "b");
    // the evaluator for the parent key was not invoked again
    assert_eq!(eval.calls_for(1), 1);
    // the dependency itself was recomputed (it has no deps of its own)
    assert_eq!(eval.calls_for(0), 2);
    // the activation for the parent reports reuse with its dependency list
    let last = h.tracker.log.last().unwrap();
    assert_eq!(last.key, "two");
    assert_eq!(last.deps, vec!["one".to_string()]);
    assert!(matches!(last.data, ActivationData::Reused));
}

#[test]
fn s3_dep_changed_forces_recompute() {
    let mut h = Harness::new(1, &["one", "two"]);
    let mut eval = TableEvaluator::new(vec![(0, "a", vec![], false), (1, "b", vec![0], false)]);
    assert_eq!(content(&h.request(0, 1, &mut eval)), "a");
    assert_eq!(content(&h.request(1, 1, &mut eval)), "b");

    // version 2: the dependency now evaluates to "a2"
    let mut eval2 = TableEvaluator::new(vec![(0, "a2", vec![], false), (1, "b2", vec![0], false)]);
    let r = h.request(1, 2, &mut eval2);
    assert_eq!(content(&r), "b2");
    // the parent was re-evaluated exactly once
    assert_eq!(eval2.calls_for(1), 1);
    // and the events show the dependency check around the recompute
    assert!(h
        .events
        .log
        .contains(&DiceEvent::CheckDepsStarted { key: DiceKey { index: 1 } }));
    assert!(h
        .events
        .log
        .contains(&DiceEvent::CheckDepsFinished { key: DiceKey { index: 1 } }));
}

#[test]
fn s4_dedup_hundred_requests_one_evaluation() {
    let mut h = Harness::new(1, &["three"]);
    let mut eval = TableEvaluator::new(vec![(0, "c", vec![], false)]);
    let mut results = Vec::new();
    for _ in 0..100 {
        results.push(h.request(0, 1, &mut eval));
    }
    assert_eq!(eval.calls_for(0), 1);
    for r in &results {
        assert_eq!(r.as_ref().unwrap().value.content, "c");
    }
    // one Started event: the evaluator ran once
    let started = h
        .events
        .log
        .iter()
        .filter(|e| matches!(e, DiceEvent::Started { key } if key.index == 0))
        .count();
    assert_eq!(started, 1);
}

#[test]
fn s5_cancelled_but_finished_is_adopted() {
    let mut h = Harness::new(1, &["four"]);
    let mut eval = TableEvaluator::new(vec![(0, "d", vec![], false)]);

    // drive a task by hand: the evaluator completes, then cancellation is
    // signaled before the commit point
    let mut task = DiceTask::new(DiceKey { index: 0 }, 1, 1);
    task.computing();
    let out = EvalOutput {
        value: DiceValue { content: "d".to_string(), validity: Validity::Valid },
        storage: StorageType::Normal,
        deps: vec![],
    };
    task.request_cancellation();
    h.engine
        .finish_computation(DiceKey { index: 0 }, 1, Ok(out), &h.key_index, &mut h.tracker, &mut task);

    // the computed value was discarded: the store was not updated
    assert!(matches!(
        h.engine.state.lookup_key(DiceKey { index: 0 }, 1),
        VersionedGraphResult::Compute
    ));
    // but the task finished in the race
    assert!(matches!(task.state, DiceTaskState::Finished(Ok(_))));

    // a successor adopts the value; the evaluator never runs
    let t2 = h.engine.spawn_for_key(
        &mut h.registry,
        DiceKey { index: 0 },
        1,
        &mut eval,
        &mut h.cycles,
        &h.key_index,
        &mut h.events,
        &mut h.tracker,
        Some(PreviouslyCancelledTask { previous: task }),
        16,
    );
    match t2.state {
        DiceTaskState::Finished(Ok(cv)) => assert_eq!(cv.value.content, "d"),
        _ => panic!("expected the successor to adopt the finished value"),
    }
    assert_eq!(eval.calls_for(0), 0);
    assert!(h.events.log.is_empty());
}

#[test]
fn s5_cancelled_without_result_is_recomputed() {
    let mut h = Harness::new(1, &["four"]);
    let mut eval = TableEvaluator::new(vec![(0, "d", vec![], false)]);

    // a task cancelled before it produced anything
    let mut task = DiceTask::new(DiceKey { index: 0 }, 1, 1);
    task.computing();
    task.request_cancellation();
    task.terminate_cancelled();

    let t2 = h.engine.spawn_for_key(
        &mut h.registry,
        DiceKey { index: 0 },
        1,
        &mut eval,
        &mut h.cycles,
        &h.key_index,
        &mut h.events,
        &mut h.tracker,
        Some(PreviouslyCancelledTask { previous: task }),
        16,
    );
    match t2.state {
        DiceTaskState::Finished(Ok(cv)) => assert_eq!(cv.value.content, "d"),
        _ => panic!("expected the successor to recompute"),
    }
    assert_eq!(eval.calls_for(0), 1);
}

#[test]
fn s6_transient_value_is_not_cached() {
    let mut h = Harness::new(1, &["five"]);
    let mut eval = TableEvaluator::new(vec![(0, "t", vec![], true)]);
    let r = h.request(0, 1, &mut eval);
    assert_eq!(content(&r), "t");
    // the store was never updated: a fresh lookup still says compute
    assert!(matches!(
        h.engine.state.lookup_key(DiceKey { index: 0 }, 1),
        VersionedGraphResult::Compute
    ));
}

#[test]
fn error_is_not_cached_and_rerequest_reevaluates() {
    let mut h = Harness::new(1, &["six"]);
    // the evaluator knows nothing about the key: it fails
    let mut eval = TableEvaluator::new(vec![]);
    let r = h.request(0, 1, &mut eval);
    assert!(matches!(r, Err(DiceError::Evaluation)));
    assert_eq!(eval.calls_for(0), 1);
    // an immediate re-request re-invokes the evaluator, which now succeeds
    let mut eval2 = TableEvaluator::new(vec![(0, "ok", vec![], false)]);
    let r2 = h.request(0, 1, &mut eval2);
    assert_eq!(content(&r2), "ok");
    assert_eq!(eval2.calls_for(0), 1);
}

#[test]
fn stale_epoch_update_leaves_store_unchanged() {
    // an engine whose epoch went stale cannot write the store
    let mut store = VersionedGraphStore::new(1);
    store.bump_epoch(); // the store moves to epoch 2
    let mut h = Harness::new(1, &["seven"]);
    h.engine = IncrementalEngine::new(store, 1); // the engine stayed at epoch 1
    let mut eval = TableEvaluator::new(vec![(0, "x", vec![], false)]);
    let r = h.request(0, 1, &mut eval);
    // the caller still gets the computed value
    assert_eq!(content(&r), "x");
    // but the store kept nothing
    assert!(matches!(
        h.engine.state.lookup_key(DiceKey { index: 0 }, 1),
        VersionedGraphResult::Compute
    ));
}

#[test]
fn cycle_reported_by_detector_forces_recompute() {
    struct OneCycle {
        banned: u32,
    }
    impl dice::cycles::UserCycleDetector for OneCycle {
        fn start_computing_key(&mut self, _k: DiceKey) {}
        fn subrequest(&mut self, _parent: dice::key::ParentKey, k: DiceKey) -> bool {
            k.index != self.banned
        }
        fn finished_computing_key(&mut self, _k: DiceKey) {}
    }
    let mut h = Harness::new(1, &["one", "two"]);
    let mut eval = TableEvaluator::new(vec![(0, "a", vec![], false), (1, "b", vec![0], false)]);
    assert_eq!(content(&h.request(0, 1, &mut eval)), "a");
    assert_eq!(content(&h.request(1, 1, &mut eval)), "b");
    // at version 2 the detector refuses the edge to the dependency: the
    // parent is recomputed rather than reused
    let mut cycles = OneCycle { banned: 0 };
    let r = h.engine.request(
        &mut h.registry,
        DiceKey { index: 1 },
        2,
        &mut eval,
        &mut cycles,
        &h.key_index,
        &mut h.events,
        &mut h.tracker,
        16,
    );
    assert_eq!(r.unwrap().value.content, "b");
    assert_eq!(eval.calls_for(1), 2);
}

#[test]
fn self_dependent_key_exhausts_depth_and_recomputes() {
    let mut h = Harness::new(1, &["loop"]);
    let mut eval = TableEvaluator::new(vec![(0, "v", vec![0], false)]);
    assert_eq!(content(&h.request(0, 1, &mut eval)), "v");
    // re-validating the self-dependency bottoms out in the depth bound and
    // the key is recomputed rather than spinning forever
    let r = h.request(0, 2, &mut eval);
    assert_eq!(content(&r), "v");
}
