//! Values, computed values, and the engine's error taxonomy.
//!
//! A value produced by an evaluator is either *valid* (cacheable, usable for
//! dependency checks) or *transient* (used once, never cached). A
//! `DiceComputedValue` pairs a value with the history of versions over which
//! it is known valid; it is the unit stored and returned.

use vstd::prelude::*;
use crate::versions::CellHistory;

verus! {

/// Whether a value may be cached and reused.
#[derive(Clone, Copy, PartialEq, Eq, Structural, Debug)]
pub enum Validity {
    Valid,
    Transient,
}

/// How an update to the store treats the recorded dependencies of an entry.
#[derive(Clone, Copy, PartialEq, Eq, Structural, Debug)]
pub enum StorageType {
    Normal,
    Injected,
}

/// Why a computation failed. Errors are returned to the caller and never
/// cached: the next request recomputes.
#[derive(Clone, Copy, PartialEq, Eq, Structural, Debug)]
pub enum DiceError {
    /// The user evaluator failed.
    Evaluation,
    /// The cycle detector refused a subrequest.
    Cycle,
    /// The engine's intrinsic depth bound was exhausted while resolving
    /// dependencies; treated like a cycle.
    RecursionLimit,
}

/// A value as an evaluator hands it back: possibly transient.
pub struct DiceValue {
    pub content: String,
    pub validity: Validity,
}

/// A value that has been checked to be cacheable.
pub struct DiceValidValue {
    pub content: String,
}

/// The mathematical content of a `DiceValue`.
pub ghost struct ValueModel {
    pub content: Seq<char>,
    pub validity: Validity,
}

impl View for DiceValue {
    type V = ValueModel;

    open spec fn view(&self) -> ValueModel {
        ValueModel { content: self.content@, validity: self.validity }
    }
}

impl View for DiceValidValue {
    type V = Seq<char>;

    open spec fn view(&self) -> Seq<char> {
        self.content@
    }
}

impl DiceValue {
    pub fn new(content: String, validity: Validity) -> (r: Self)
        ensures
            r@.content == content@,
            r@.validity == validity,
    {
        DiceValue { content, validity }
    }

    pub fn duplicate(&self) -> (r: Self)
        ensures
            r@ == self@,
    {
        DiceValue { content: self.content.clone(), validity: self.validity }
    }

    /// Split a maybe-valid value: a valid value is cacheable, a transient one
    /// is handed back unchanged.
    pub fn into_valid_value(self) -> (r: Result<DiceValidValue, DiceValue>)
        ensures
            self@.validity is Valid ==> (r matches Ok(v) && v@ == self@.content),
            self@.validity is Transient ==> (r matches Err(e) && e@ == self@),
    {
        match self.validity {
            Validity::Valid => Ok(DiceValidValue { content: self.content }),
            Validity::Transient => Err(self),
        }
    }
}

impl DiceValidValue {
    pub fn duplicate(&self) -> (r: Self)
        ensures
            r@ == self@,
    {
        DiceValidValue { content: self.content.clone() }
    }

    /// Forget the validity evidence.
    pub fn into_maybe_valid(self) -> (r: DiceValue)
        ensures
            r@.content == self@,
            r@.validity is Valid,
    {
        DiceValue { content: self.content, validity: Validity::Valid }
    }
}

/// The unit stored in and returned from the versioned graph: a value together
/// with the history of versions at which it is known valid.
pub struct DiceComputedValue {
    pub value: DiceValue,
    pub history: CellHistory,
}

/// The mathematical content of a `DiceComputedValue`.
pub ghost struct ComputedValueModel {
    pub value: ValueModel,
    pub history: Seq<crate::versions::VersionRange>,
}

impl View for DiceComputedValue {
    type V = ComputedValueModel;

    open spec fn view(&self) -> ComputedValueModel {
        ComputedValueModel { value: self.value@, history: self.history.ranges@ }
    }
}

impl DiceComputedValue {
    pub fn new(value: DiceValue, history: CellHistory) -> (r: Self)
        ensures
            r.value == value,
            r.history == history,
            r@.value == value@,
            r@.history == history.ranges@,
    {
        DiceComputedValue { value, history }
    }

    pub fn duplicate(&self) -> (r: Self)
        ensures
            r@ == self@,
    {
        let r = DiceComputedValue { value: self.value.duplicate(), history: self.history.duplicate() };
        proof {
            assert(r@ =~= self@);
        }
        r
    }
}

} // verus!
