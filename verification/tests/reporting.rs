//! Activation reporting, lifecycle events, key interning, and the backend
//! name boundary.

use dice::activation::{report_key_activation, ActivationData, ActivationTracker};
use dice::backend::CriticalPathBackendName;
use dice::events::{DiceEvent, DiceEventDispatcher};
use dice::key::{DiceKey, DiceKeyIndex};

#[test]
fn key_index_interns_each_name_once() {
    let mut idx = DiceKeyIndex::new();
    let a = idx.index(&"alpha".to_string());
    let b = idx.index(&"beta".to_string());
    let a2 = idx.index(&"alpha".to_string());
    assert_eq!(a, a2);
    assert_ne!(a, b);
    assert_eq!(idx.len(), 2);
    assert_eq!(idx.get(a), "alpha");
    assert_eq!(idx.get(b), "beta");
}

#[test]
fn enabled_tracker_records_user_keys() {
    let mut idx = DiceKeyIndex::new();
    let parent = idx.index(&"parent".to_string());
    let child = idx.index(&"child".to_string());
    let mut tracker = ActivationTracker::new(true);
    report_key_activation(&idx, &mut tracker, parent, &vec![child], ActivationData::Evaluated);
    assert_eq!(tracker.log.len(), 1);
    assert_eq!(tracker.log[0].key, "parent");
    assert_eq!(tracker.log[0].deps, vec!["child".to_string()]);
    assert!(matches!(tracker.log[0].data, ActivationData::Evaluated));
}

#[test]
fn disabled_tracker_swallows_reports() {
    let mut idx = DiceKeyIndex::new();
    let parent = idx.index(&"parent".to_string());
    let mut tracker = ActivationTracker::new(false);
    report_key_activation(&idx, &mut tracker, parent, &vec![], ActivationData::Reused);
    assert!(tracker.log.is_empty());
}

#[test]
fn dispatcher_logs_events_in_order() {
    let mut d = DiceEventDispatcher::new();
    let key = DiceKey { index: 4 };
    d.started(key);
    d.check_deps_started(key);
    d.check_deps_finished(key);
    d.finished(key);
    assert_eq!(
        d.log,
        vec![
            DiceEvent::Started { key },
            DiceEvent::CheckDepsStarted { key },
            DiceEvent::CheckDepsFinished { key },
            DiceEvent::Finished { key },
        ]
    );
}

#[test]
fn backend_names_parse_exactly() {
    assert!(matches!(
        CriticalPathBackendName::from_str("longest-path-graph"),
        Ok(CriticalPathBackendName::LongestPathGraph)
    ));
    assert!(matches!(
        CriticalPathBackendName::from_str("default"),
        Ok(CriticalPathBackendName::Default)
    ));
    match CriticalPathBackendName::from_str("fastest-path") {
        Err(e) => assert_eq!(e.name, "fastest-path"),
        Ok(_) => panic!("an unknown backend name must be rejected"),
    }
    // near misses are rejected too
    assert!(CriticalPathBackendName::from_str("Default").is_err());
    assert!(CriticalPathBackendName::from_str("").is_err());
    assert!(CriticalPathBackendName::from_str("longest-path-graph ").is_err());
}

#[test]
fn backend_name_round_trips_through_its_string() {
    for b in [
        CriticalPathBackendName::LongestPathGraph,
        CriticalPathBackendName::Default,
    ] {
        let parsed = CriticalPathBackendName::from_str(b.as_str()).unwrap();
        assert_eq!(parsed, b);
    }
}
