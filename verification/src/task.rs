//! Tasks: shared records of an ongoing or completed computation.
//!
//! A task is born on the first request for a key at an epoch, moves through
//! `CheckingDeps` and `Computing`, and terminates as `Finished` (carrying its
//! result) or `Cancelled`. Cancellation is cooperative: requesting it only
//! raises a flag. The driver attempts to *disable* cancellation right before
//! publishing; if the flag was already raised the attempt fails and the
//! driver must not write the store. A task that publishes its result although
//! its cancellation was requested is *cancelled-but-finished*: a successor
//! task may adopt its result instead of recomputing.

use vstd::prelude::*;
use crate::key::DiceKey;
use crate::value::ComputedValueModel;
use crate::value::DiceComputedValue;
use crate::value::DiceError;
use crate::versions::VersionEpoch;
use crate::versions::VersionNumber;

verus! {

/// Where a task stands in its lifecycle.
pub enum DiceTaskState {
    Initial,
    CheckingDeps,
    Computing,
    Finished(Result<DiceComputedValue, DiceError>),
    Cancelled,
}

/// How a task was observed to terminate by someone awaiting it.
#[derive(Clone, Copy, PartialEq, Eq, Structural, Debug)]
pub enum TerminationStatus {
    Finished,
    Cancelled,
}

/// The mathematical content of a task result.
pub open spec fn result_model(r: Result<DiceComputedValue, DiceError>) -> Result<
    ComputedValueModel,
    DiceError,
> {
    match r {
        Ok(cv) => Ok(cv@),
        Err(e) => Err(e),
    }
}

/// An exact copy of a task result.
pub fn duplicate_result(r: &Result<DiceComputedValue, DiceError>) -> (out: Result<
    DiceComputedValue,
    DiceError,
>)
    ensures
        result_model(out) == result_model(*r),
{
    match r {
        Ok(cv) => Ok(cv.duplicate()),
        Err(e) => Err(*e),
    }
}

/// A record of one attempt to produce a key's value, born for one version of
/// one engine generation: a task never answers a request for another version.
pub struct DiceTask {
    pub key: DiceKey,
    pub version: VersionNumber,
    pub version_epoch: VersionEpoch,
    pub state: DiceTaskState,
    pub cancellation_requested: bool,
    pub cancellation_disabled: bool,
}

impl DiceTask {
    /// Has the task reached a terminal state?
    pub open spec fn spec_is_terminal(self) -> bool {
        self.state is Finished || self.state is Cancelled
    }

    /// Is the task cancelled as far as new requesters are concerned: its
    /// cancellation was requested and the driver never disabled it?
    pub open spec fn spec_is_cancelled(self) -> bool {
        self.cancellation_requested && !self.cancellation_disabled
    }

    /// A published value's history is well formed.
    pub open spec fn result_history_wf(self) -> bool {
        self.state matches DiceTaskState::Finished(res) ==> (res matches Ok(cv)
            ==> cv.history.wf())
    }

    /// The task's identity: the key it stands for and the version and epoch
    /// it was born for.
    pub open spec fn same_key_epoch(self, other: DiceTask) -> bool {
        self.key == other.key && self.version == other.version && self.version_epoch
            == other.version_epoch
    }

    /// Everything but the lifecycle state is as it was.
    pub open spec fn same_but_state(self, other: DiceTask) -> bool {
        &&& self.key == other.key
        &&& self.version == other.version
        &&& self.version_epoch == other.version_epoch
        &&& self.cancellation_requested == other.cancellation_requested
        &&& self.cancellation_disabled == other.cancellation_disabled
    }

    pub fn new(key: DiceKey, version: VersionNumber, version_epoch: VersionEpoch) -> (r: Self)
        ensures
            r.key == key,
            r.version == version,
            r.version_epoch == version_epoch,
            r.state is Initial,
            !r.cancellation_requested,
            !r.cancellation_disabled,
    {
        DiceTask {
            key,
            version,
            version_epoch,
            state: DiceTaskState::Initial,
            cancellation_requested: false,
            cancellation_disabled: false,
        }
    }

    /// The driver is about to validate the recorded dependencies.
    pub fn checking_deps(&mut self)
        requires
            !old(self).spec_is_terminal(),
        ensures
            final(self).state is CheckingDeps,
            final(self).same_but_state(*old(self)),
    {
        self.state = DiceTaskState::CheckingDeps;
    }

    /// The driver is about to invoke the evaluator.
    pub fn computing(&mut self)
        requires
            !old(self).spec_is_terminal(),
        ensures
            final(self).state is Computing,
            final(self).same_but_state(*old(self)),
    {
        self.state = DiceTaskState::Computing;
    }

    /// Publish the result. A finished task's result is immutable: nothing may
    /// be published twice.
    pub fn finished(&mut self, res: Result<DiceComputedValue, DiceError>)
        requires
            !old(self).spec_is_terminal(),
        ensures
            final(self).state == DiceTaskState::Finished(res),
            final(self).same_but_state(*old(self)),
    {
        self.state = DiceTaskState::Finished(res);
    }

    /// Signal cooperative cancellation: only the flag is raised; the driver
    /// decides what becomes of the task.
    pub fn request_cancellation(&mut self)
        ensures
            final(self).cancellation_requested,
            final(self).cancellation_disabled == old(self).cancellation_disabled,
            final(self).state == old(self).state,
            final(self).same_key_epoch(*old(self)),
    {
        self.cancellation_requested = true;
    }

    /// The driver's commit point: succeeds — and bars cancellation from now
    /// on — unless cancellation was already requested and not yet disabled.
    pub fn try_to_disable_cancellation(&mut self) -> (r: bool)
        ensures
            r == !old(self).spec_is_cancelled(),
            r ==> final(self).cancellation_disabled && final(self).cancellation_requested == old(
                self,
            ).cancellation_requested && final(self).state == old(self).state
                && final(self).same_key_epoch(*old(self)),
            !r ==> *final(self) == *old(self),
    {
        if self.cancellation_requested && !self.cancellation_disabled {
            false
        } else {
            self.cancellation_disabled = true;
            true
        }
    }

    /// The executor drops a cancelled task at a suspension point: it
    /// terminates without a result.
    pub fn terminate_cancelled(&mut self)
        requires
            !old(self).spec_is_terminal(),
            old(self).spec_is_cancelled(),
        ensures
            final(self).state is Cancelled,
            final(self).same_but_state(*old(self)),
    {
        self.state = DiceTaskState::Cancelled;
    }

    /// The termination that an awaiter observes: `Finished` iff the task
    /// published a result; a task dropped mid-flight reports `Cancelled`.
    pub fn termination_status(&self) -> (r: TerminationStatus)
        ensures
            r is Finished <==> self.state is Finished,
    {
        match self.state {
            DiceTaskState::Finished(_) => TerminationStatus::Finished,
            _ => TerminationStatus::Cancelled,
        }
    }

    /// The published result of a finished task, if there is one.
    pub fn get_finished_value(&self) -> (r: Option<Result<DiceComputedValue, DiceError>>)
        ensures
            match self.state {
                DiceTaskState::Finished(res) => r matches Some(out) && result_model(out)
                    == result_model(res),
                _ => r is None,
            },
    {
        match &self.state {
            DiceTaskState::Finished(res) => Some(duplicate_result(res)),
            _ => Option::None,
        }
    }
}

/// A prior task for the same key that was cancelled; the successor awaits its
/// termination and adopts its result if it finished in the race.
pub struct PreviouslyCancelledTask {
    pub previous: DiceTask,
}

} // verus!
