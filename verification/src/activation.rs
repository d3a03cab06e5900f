//! Activation reporting.
//!
//! When the engine settles a key it reports whether the key was genuinely
//! recomputed or its cached value was reused, together with the user keys of
//! its dependencies. The tracker is modelled as a record of the reports; it
//! is optional — a disabled tracker swallows reports.

use vstd::prelude::*;
use crate::key::DiceKey;
use crate::key::DiceKeyIndex;

verus! {

/// Whether a key's value was recomputed or reused.
#[derive(Clone, Copy, PartialEq, Eq, Structural, Debug)]
pub enum ActivationData {
    /// The cached value was reused after its dependencies were validated.
    Reused,
    /// The evaluator ran.
    Evaluated,
}

/// One activation report, over user keys.
pub struct ActivationRecord {
    pub key: String,
    pub deps: Vec<String>,
    pub data: ActivationData,
}

/// The mathematical content of an activation report.
pub ghost struct ActivationRecordModel {
    pub key: Seq<char>,
    pub deps: Seq<Seq<char>>,
    pub data: ActivationData,
}

impl View for ActivationRecord {
    type V = ActivationRecordModel;

    open spec fn view(&self) -> ActivationRecordModel {
        ActivationRecordModel {
            key: self.key@,
            deps: Seq::new(self.deps@.len(), |i: int| self.deps@[i]@),
            data: self.data,
        }
    }
}

/// The sink for activation reports.
pub struct ActivationTracker {
    pub enabled: bool,
    pub log: Vec<ActivationRecord>,
}

impl ActivationTracker {
    pub fn new(enabled: bool) -> (r: Self)
        ensures
            r.enabled == enabled,
            r.log@.len() == 0,
    {
        ActivationTracker { enabled, log: Vec::new() }
    }
}

/// One report with exactly this shape: the user key behind `k`, the user keys
/// behind `deps` in order, and the given datum.
pub open spec fn activation_recorded(
    rec: ActivationRecord,
    index: DiceKeyIndex,
    k: DiceKey,
    deps: Seq<DiceKey>,
    data: ActivationData,
) -> bool {
    &&& rec.key@ == index.spec_get(k)
    &&& rec.data == data
    &&& rec.deps@.len() == deps.len()
    &&& forall|i: int| 0 <= i < deps.len() ==> (#[trigger] rec.deps@[i])@ == index.spec_get(deps[i])
}

/// Are all these ids ones the index has handed out?
pub open spec fn keys_valid(index: DiceKeyIndex, deps: Seq<DiceKey>) -> bool {
    forall|i: int| 0 <= i < deps.len() ==> index.key_valid(#[trigger] deps[i])
}

/// Check at run time that every id is one the index has handed out.
pub fn all_keys_valid(index: &DiceKeyIndex, deps: &Vec<DiceKey>) -> (r: bool)
    ensures
        r == keys_valid(*index, deps@),
{
    let mut i: usize = 0;
    while i < deps.len()
        invariant
            i <= deps@.len(),
            forall|t: int| 0 <= t < i ==> index.key_valid(#[trigger] deps@[t]),
        decreases deps@.len() - i,
    {
        if deps[i].index as usize >= index.len() {
            return false;
        }
        i += 1;
    }
    true
}

/// Report that `key` was activated — recomputed or reused — with the given
/// dependencies. An enabled tracker records the user keys behind the ids; a
/// disabled one records nothing.
#[verifier::loop_isolation(false)]
pub fn report_key_activation(
    key_index: &DiceKeyIndex,
    activation_tracker: &mut ActivationTracker,
    key: DiceKey,
    deps: &Vec<DiceKey>,
    activation_data: ActivationData,
)
    requires
        key_index.key_valid(key),
        keys_valid(*key_index, deps@),
    ensures
        final(activation_tracker).enabled == old(activation_tracker).enabled,
        !old(activation_tracker).enabled ==> *final(activation_tracker) == *old(activation_tracker),
        old(activation_tracker).enabled ==> {
            let oldlog = old(activation_tracker).log@;
            let newlog = final(activation_tracker).log@;
            &&& newlog.len() == oldlog.len() + 1
            &&& forall|i: int| 0 <= i < oldlog.len() ==> #[trigger] newlog[i] == oldlog[i]
            &&& activation_recorded(newlog.last(), *key_index, key, deps@, activation_data)
        },
{
    if !activation_tracker.enabled {
        return ;
    }
    let mut dep_names: Vec<String> = Vec::new();
    let mut i: usize = 0;
    while i < deps.len()
        invariant
            i <= deps@.len(),
            dep_names@.len() == i,
            forall|t: int|
                0 <= t < i ==> (#[trigger] dep_names@[t])@ == key_index.spec_get(deps@[t]),
        decreases deps@.len() - i,
    {
        dep_names.push(key_index.get(deps[i]).clone());
        i += 1;
    }
    let record = ActivationRecord {
        key: key_index.get(key).clone(),
        deps: dep_names,
        data: activation_data,
    };
    activation_tracker.log.push(record);
}

} // verus!
