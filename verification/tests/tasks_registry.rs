//! Task lifecycle, cancellation, and the registry's request decisions.

use dice::key::DiceKey;
use dice::registry::{RequestDecision, TaskRegistry};
use dice::task::{DiceTask, DiceTaskState, TerminationStatus};
use dice::value::{DiceComputedValue, DiceError, DiceValue, Validity};
use dice::versions::VersionRanges;

fn k(i: u32) -> DiceKey {
    DiceKey { index: i }
}

fn finished_ok(key: DiceKey, v: u64, epoch: u64, s: &str) -> DiceTask {
    let mut t = DiceTask::new(key, v, epoch);
    t.computing();
    t.finished(Ok(DiceComputedValue {
        value: DiceValue { content: s.to_string(), validity: Validity::Valid },
        history: VersionRanges::verified(1),
    }));
    t
}

#[test]
fn task_walks_its_lifecycle() {
    let mut t = DiceTask::new(k(0), 1, 1);
    assert!(matches!(t.state, DiceTaskState::Initial));
    t.checking_deps();
    assert!(matches!(t.state, DiceTaskState::CheckingDeps));
    t.computing();
    assert!(matches!(t.state, DiceTaskState::Computing));
    t.finished(Err(DiceError::Evaluation));
    assert!(matches!(t.state, DiceTaskState::Finished(Err(DiceError::Evaluation))));
    assert!(matches!(t.termination_status(), TerminationStatus::Finished));
}

#[test]
fn disable_cancellation_races() {
    // disabling first wins: a later signal has no effect on the commit
    let mut a = DiceTask::new(k(0), 1, 1);
    assert!(a.try_to_disable_cancellation());
    a.request_cancellation();
    assert!(a.try_to_disable_cancellation());

    // the signal landing first makes the disable attempt fail
    let mut b = DiceTask::new(k(0), 1, 1);
    b.request_cancellation();
    assert!(!b.try_to_disable_cancellation());
}

#[test]
fn cancelled_task_terminates_without_a_result() {
    let mut t = DiceTask::new(k(0), 1, 1);
    t.computing();
    t.request_cancellation();
    t.terminate_cancelled();
    assert!(matches!(t.termination_status(), TerminationStatus::Cancelled));
    assert!(t.get_finished_value().is_none());
}

#[test]
fn registry_attaches_to_a_usable_task() {
    let mut r = TaskRegistry::new();
    assert_eq!(r.decide(k(0), 1, 1), RequestDecision::SpawnFresh);
    let _slot = r.take(k(0));
    r.put(k(0), finished_ok(k(0), 1, 1, "a"));
    assert_eq!(r.decide(k(0), 1, 1), RequestDecision::Attach);
    // a different epoch cannot use the task
    assert_eq!(r.decide(k(0), 1, 2), RequestDecision::SpawnFresh);
    // nor can a different version: it must go back through the dep check
    assert_eq!(r.decide(k(0), 2, 1), RequestDecision::SpawnFresh);
}

#[test]
fn registry_never_serves_an_errored_task() {
    let mut r = TaskRegistry::new();
    let _slot = r.take(k(0));
    let mut t = DiceTask::new(k(0), 1, 1);
    t.computing();
    t.finished(Err(DiceError::Evaluation));
    r.put(k(0), t);
    // the error is not handed to new requesters: the evaluator runs again
    assert_eq!(r.decide(k(0), 1, 1), RequestDecision::SpawnFresh);
}

#[test]
fn registry_hands_a_cancelled_task_to_its_successor() {
    let mut r = TaskRegistry::new();
    let _slot = r.take(k(0));
    let mut t = finished_ok(k(0), 1, 1, "a");
    t.request_cancellation();
    r.put(k(0), t);
    assert_eq!(r.decide(k(0), 1, 1), RequestDecision::SpawnWithPrevious);
}

#[test]
fn one_slot_per_key() {
    let mut r = TaskRegistry::new();
    let _slot = r.take(k(3));
    r.put(k(3), finished_ok(k(3), 1, 1, "a"));
    // installing for one key leaves the others untouched
    assert_eq!(r.decide(k(2), 1, 1), RequestDecision::SpawnFresh);
    assert_eq!(r.decide(k(3), 1, 1), RequestDecision::Attach);
    // replacing the task for the key leaves exactly one standing
    let prior = r.take(k(3));
    assert!(prior.is_some());
    assert_eq!(r.decide(k(3), 1, 1), RequestDecision::SpawnFresh);
}
