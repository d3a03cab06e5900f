//! The evaluator interfaces.
//!
//! Evaluators run user code: they take a key and produce a value together
//! with the dependencies the user code read and the storage policy for the
//! key. The engine promises nothing about what an evaluator returns; its own
//! contracts say what the engine does with every possible outcome.

use vstd::prelude::*;
use crate::key::DiceKey;
use crate::value::DiceError;
use crate::value::DiceValue;
use crate::value::StorageType;

verus! {

/// What an evaluation produced: the value, the storage policy for the key,
/// and every dependency the user code read while computing it.
pub struct EvalOutput {
    pub value: DiceValue,
    pub storage: StorageType,
    pub deps: Vec<DiceKey>,
}

/// The evaluator driven by the asynchronous path. Implemented by users.
pub trait AsyncEvaluator {
    /// Run user code for `k`.
    fn evaluate(&mut self, k: DiceKey) -> Result<EvalOutput, DiceError>;

    /// The storage policy of `k`, used when a cached value is reused.
    fn storage_type(&self, k: DiceKey) -> StorageType;
}

/// The evaluator driven by the synchronous projection path. Implemented by
/// users who guarantee the computation is pure and cheap.
pub trait SyncEvaluator {
    /// Run user code for `k`.
    fn evaluate(&mut self, k: DiceKey) -> Result<EvalOutput, DiceError>;
}

} // verus!
