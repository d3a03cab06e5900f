//! Lifecycle events.
//!
//! The engine reports the lifecycle of each key it works on: `Started` and
//! `Finished` bracket the compute path, `CheckDepsStarted` and
//! `CheckDepsFinished` bracket dependency validation. The dispatcher is
//! modelled as a record of the events emitted, in order.

use vstd::prelude::*;
use crate::key::DiceKey;

verus! {

/// One lifecycle event.
#[derive(Clone, Copy, PartialEq, Eq, Structural, Debug)]
pub enum DiceEvent {
    Started { key: DiceKey },
    Finished { key: DiceKey },
    CheckDepsStarted { key: DiceKey },
    CheckDepsFinished { key: DiceKey },
}

/// The sink for lifecycle events: the log of what was emitted.
pub struct DiceEventDispatcher {
    pub log: Vec<DiceEvent>,
}

impl DiceEventDispatcher {
    pub fn new() -> (r: Self)
        ensures
            r.log@.len() == 0,
    {
        DiceEventDispatcher { log: Vec::new() }
    }

    /// The evaluator is about to run for `key`.
    pub fn started(&mut self, key: DiceKey)
        ensures
            final(self).log@ == old(self).log@.push(DiceEvent::Started { key }),
    {
        self.log.push(DiceEvent::Started { key });
    }

    /// Work on `key`'s computation is complete.
    pub fn finished(&mut self, key: DiceKey)
        ensures
            final(self).log@ == old(self).log@.push(DiceEvent::Finished { key }),
    {
        self.log.push(DiceEvent::Finished { key });
    }

    /// Dependency validation for `key` begins.
    pub fn check_deps_started(&mut self, key: DiceKey)
        ensures
            final(self).log@ == old(self).log@.push(DiceEvent::CheckDepsStarted { key }),
    {
        self.log.push(DiceEvent::CheckDepsStarted { key });
    }

    /// Dependency validation for `key` is over.
    pub fn check_deps_finished(&mut self, key: DiceKey)
        ensures
            final(self).log@ == old(self).log@.push(DiceEvent::CheckDepsFinished { key }),
    {
        self.log.push(DiceEvent::CheckDepsFinished { key });
    }
}

/// `new` carries `old` forward: the old entries stand unchanged at the front.
pub open spec fn seq_extends<T>(new: Seq<T>, old: Seq<T>) -> bool {
    &&& old.len() <= new.len()
    &&& forall|i: int| 0 <= i < old.len() ==> new[i] == old[i]
}

} // verus!
