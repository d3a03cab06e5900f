//! The synchronous projection path.

use dice::events::{DiceEvent, DiceEventDispatcher};
use dice::evaluator::{EvalOutput, SyncEvaluator};
use dice::incremental::IncrementalEngine;
use dice::key::DiceKey;
use dice::store::{VersionedGraphResult, VersionedGraphStore};
use dice::task::{DiceTask, DiceTaskState};
use dice::value::{DiceComputedValue, DiceError, DiceValue, StorageType, Validity};
use dice::versions::VersionRanges;

struct OneValue {
    content: String,
    transient: bool,
    calls: u32,
}

impl SyncEvaluator for OneValue {
    fn evaluate(&mut self, _k: DiceKey) -> Result<EvalOutput, DiceError> {
        self.calls += 1;
        Ok(EvalOutput {
            value: DiceValue {
                content: self.content.clone(),
                validity: if self.transient {
                    Validity::Transient
                } else {
                    Validity::Valid
                },
            },
            storage: StorageType::Normal,
            deps: vec![],
        })
    }
}

fn k(i: u32) -> DiceKey {
    DiceKey { index: i }
}

#[test]
fn projection_evaluates_inline_and_writes_the_store() {
    let mut engine = IncrementalEngine::new(VersionedGraphStore::new(1), 1);
    let mut events = DiceEventDispatcher::new();
    let mut eval = OneValue { content: "p".to_string(), transient: false, calls: 0 };
    let mut task = DiceTask::new(k(0), 1, 1);
    let r = engine.project_for_key(&mut task, k(0), 1, &mut eval, &mut events);
    let cv = r.unwrap();
    assert_eq!(cv.value.content, "p");
    assert!(cv.history.contains_version(1));
    assert_eq!(eval.calls, 1);
    // the projection blocks on the store update: the value is cached
    assert!(matches!(
        engine.state.lookup_key(k(0), 1),
        VersionedGraphResult::Match(_)
    ));
    assert_eq!(
        events.log,
        vec![DiceEvent::Started { key: k(0) }, DiceEvent::Finished { key: k(0) }]
    );
    assert!(matches!(task.state, DiceTaskState::Finished(Ok(_))));
}

#[test]
fn projection_of_a_transient_value_skips_the_store() {
    let mut engine = IncrementalEngine::new(VersionedGraphStore::new(1), 1);
    let mut events = DiceEventDispatcher::new();
    let mut eval = OneValue { content: "t".to_string(), transient: true, calls: 0 };
    let mut task = DiceTask::new(k(0), 1, 1);
    let r = engine.project_for_key(&mut task, k(0), 1, &mut eval, &mut events);
    assert_eq!(r.unwrap().value.content, "t");
    assert!(matches!(engine.state.lookup_key(k(0), 1), VersionedGraphResult::Compute));
}

#[test]
fn projection_completes_the_promise_at_most_once() {
    let mut engine = IncrementalEngine::new(VersionedGraphStore::new(1), 1);
    let mut events = DiceEventDispatcher::new();
    let mut eval = OneValue { content: "p".to_string(), transient: false, calls: 0 };

    // a promise to an already finished task yields its value inline
    let mut task = DiceTask::new(k(0), 1, 1);
    task.finished(Ok(DiceComputedValue {
        value: DiceValue { content: "done".to_string(), validity: Validity::Valid },
        history: VersionRanges::verified(1),
    }));
    let r = engine.project_for_key(&mut task, k(0), 1, &mut eval, &mut events);
    assert_eq!(r.unwrap().value.content, "done");
    assert_eq!(eval.calls, 0);
    assert!(events.log.is_empty());
}
