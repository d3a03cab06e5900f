//! The versioned graph store.
//!
//! The store owns the map from keys to cached cells. It serves two requests:
//! `lookup_key`, which classifies a key at a version as `Match` (a cached
//! value is live), `CheckDeps` (a cached value exists whose dependencies must
//! be re-validated first), or `Compute` (nothing usable is cached); and
//! `update_computed`, which installs or extends a cell. Updates carry the
//! epoch of the engine that issued them: an update from a stale epoch is
//! discarded and answered with the store's current view of the key.

use vstd::prelude::*;
use vstd::pervasive::VecAdditionalExecFns;
use crate::key::DiceKey;
use crate::value::DiceComputedValue;
use crate::value::DiceValidValue;
use crate::versions::CellHistory;
use crate::versions::VersionEpoch;
use crate::versions::VersionNumber;
use crate::versions::VersionRange;
use crate::versions::VersionRanges;
use crate::value::StorageType;

verus! {

/// One cached cell: the latest value computed for a key, the dependencies
/// observed while computing it, and the versions at which it is known valid.
pub struct VersionedGraphEntry {
    pub value: DiceValidValue,
    pub deps: Vec<DiceKey>,
    pub history: CellHistory,
}

/// The mathematical content of a cell.
pub ghost struct EntryModel {
    pub content: Seq<char>,
    pub deps: Seq<DiceKey>,
    pub history: Seq<VersionRange>,
}

impl View for VersionedGraphEntry {
    type V = EntryModel;

    open spec fn view(&self) -> EntryModel {
        EntryModel { content: self.value@, deps: self.deps@, history: self.history.ranges@ }
    }
}

/// What the store knows about a key that is cached but not live at the
/// requested version: the prior value, the versions at which it was verified,
/// and the dependencies that must be validated before it may be reused.
pub struct VersionedGraphResultMismatch {
    pub entry: DiceValidValue,
    pub verified_versions: VersionRanges,
    pub deps_to_validate: Vec<DiceKey>,
}

/// The outcome of a lookup.
pub enum VersionedGraphResult {
    /// A cached value is live at the requested version.
    Match(DiceComputedValue),
    /// Nothing usable is cached; the key must be computed.
    Compute,
    /// A cached value exists whose dependencies must be checked first.
    CheckDeps(VersionedGraphResultMismatch),
}

/// The single-writer store of cached cells, indexed by compact key id.
pub struct VersionedGraphStore {
    pub current_epoch: VersionEpoch,
    pub entries: Vec<Option<VersionedGraphEntry>>,
}

/// A merged cell: the value is unchanged, the history gains `v`, and the
/// dependencies are replaced (normal storage) or appended (injected storage).
pub open spec fn entry_merged(
    old_e: VersionedGraphEntry,
    new_e: VersionedGraphEntry,
    v: int,
    storage: StorageType,
    deps: Seq<DiceKey>,
) -> bool {
    &&& new_e.value@ == old_e.value@
    &&& forall|w: int| #[trigger] new_e.history.contains(w) <==> old_e.history.contains(w) || w == v
    &&& (storage is Normal ==> new_e.deps@ == deps)
    &&& (storage is Injected ==> new_e.deps@ == old_e.deps@ + deps)
}

/// A fresh cell: the given value, verified exactly at `v`, with the given
/// dependencies.
pub open spec fn entry_fresh(
    new_e: VersionedGraphEntry,
    content: Seq<char>,
    v: int,
    deps: Seq<DiceKey>,
) -> bool {
    &&& new_e.value@ == content
    &&& forall|w: int| #[trigger] new_e.history.contains(w) <==> w == v
    &&& new_e.deps@ == deps
}

/// What an accepted update leaves in the cell: a merge when the key already
/// held the same value, a fresh cell otherwise.
pub open spec fn entry_updated(
    old_entry: Option<VersionedGraphEntry>,
    new_e: VersionedGraphEntry,
    content: Seq<char>,
    v: int,
    storage: StorageType,
    deps: Seq<DiceKey>,
) -> bool {
    match old_entry {
        Some(e) => if e.value@ == content {
            entry_merged(e, new_e, v, storage, deps)
        } else {
            entry_fresh(new_e, content, v, deps)
        },
        None => entry_fresh(new_e, content, v, deps),
    }
}

impl VersionedGraphStore {
    /// In a well-formed store, every cached history is well formed.
    pub proof fn lemma_entry_history_wf(self, k: int)
        requires
            self.wf(),
        ensures
            self.spec_entry(k) matches Some(e) ==> e.history.wf(),
    {
        if self.spec_entry(k) is Some {
            assert(0 <= k < self.entries@.len());
            assert(self.entries@[k] == self.spec_entry(k));
        }
    }

    /// Every cached history is well formed.
    pub open spec fn wf(self) -> bool {
        forall|k: int|
            0 <= k < self.entries@.len() ==> ((#[trigger] self.entries@[k]) matches Some(e)
                ==> e.history.wf())
    }

    /// The cell cached for a key, if any. Keys beyond the store's extent hold
    /// nothing.
    pub open spec fn spec_entry(self, k: int) -> Option<VersionedGraphEntry> {
        if 0 <= k < self.entries@.len() {
            self.entries@[k]
        } else {
            None
        }
    }

    /// Is some cached value for `k` known valid at `v`?
    pub open spec fn live_at(self, k: int, v: int) -> bool {
        self.spec_entry(k) matches Some(e) && e.history.contains(v)
    }

    pub fn new(current_epoch: VersionEpoch) -> (r: Self)
        ensures
            r.wf(),
            r.current_epoch == current_epoch,
            forall|k: int| #[trigger] r.spec_entry(k) is None,
    {
        VersionedGraphStore { current_epoch, entries: Vec::new() }
    }

    /// Begin a new engine generation: in-flight updates stamped with the old
    /// epoch will from now on be discarded.
    pub fn bump_epoch(&mut self)
        requires
            old(self).current_epoch < u64::MAX,
        ensures
            final(self).current_epoch == old(self).current_epoch + 1,
            final(self).entries@ == old(self).entries@,
    {
        self.current_epoch = self.current_epoch + 1;
    }

    /// Classify key `k` at version `v`.
    ///
    /// Returns `Match` iff a cached value's history contains `v`; `CheckDeps`
    /// iff the key is cached but not live at `v` (carrying the prior value,
    /// its verified versions, and its dependencies); `Compute` otherwise.
    pub fn lookup_key(&self, k: DiceKey, v: VersionNumber) -> (r: VersionedGraphResult)
        requires
            self.wf(),
        ensures
            match self.spec_entry(k.index as int) {
                Option::None => r is Compute,
                Option::Some(e) => if e.history.contains(v as int) {
                    r matches VersionedGraphResult::Match(cv) && cv@.value.content == e.value@
                        && cv@.value.validity is Valid && cv@.history == e.history.ranges@
                } else {
                    r matches VersionedGraphResult::CheckDeps(m) && m.entry@ == e.value@
                        && m.verified_versions.wf() && m.verified_versions.ranges@
                        == e.history.ranges@ && m.deps_to_validate@ == e.deps@
                },
            },
    {
        let idx = k.index as usize;
        if idx >= self.entries.len() {
            return VersionedGraphResult::Compute;
        }
        match &self.entries[idx] {
            Option::None => VersionedGraphResult::Compute,
            Option::Some(e) => {
                if e.history.contains_version(v) {
                    VersionedGraphResult::Match(
                        DiceComputedValue::new(
                            e.value.duplicate().into_maybe_valid(),
                            e.history.duplicate(),
                        ),
                    )
                } else {
                    VersionedGraphResult::CheckDeps(
                        VersionedGraphResultMismatch {
                            entry: e.value.duplicate(),
                            verified_versions: e.history.duplicate(),
                            deps_to_validate: crate::key::clone_keys(&e.deps),
                        },
                    )
                }
            },
        }
    }

    /// Install the result of a computation at version `v`.
    ///
    /// An update whose epoch differs from the store's current epoch is
    /// discarded: the store is left unchanged and the reply is the store's
    /// current view of the key (the cached cell if one exists, else the
    /// offered value verified only at `v`). An accepted update merges with
    /// the cached cell when the value is unchanged — extending its history
    /// with `v` — and replaces it otherwise; the reply is the resulting cell.
    pub fn update_computed(
        &mut self,
        k: DiceKey,
        v: VersionNumber,
        epoch: VersionEpoch,
        storage: StorageType,
        value: DiceValidValue,
        deps: Vec<DiceKey>,
    ) -> (r: DiceComputedValue)
        requires
            old(self).wf(),
            v < u64::MAX,
        ensures
            final(self).wf(),
            r.history.wf(),
            final(self).current_epoch == old(self).current_epoch,
            epoch != old(self).current_epoch ==> *final(self) == *old(self),
            epoch != old(self).current_epoch ==> match old(self).spec_entry(k.index as int) {
                Some(e) => r@.value.content == e.value@ && r@.value.validity is Valid && r@.history
                    == e.history.ranges@,
                None => r@.value.content == value@ && r@.value.validity is Valid && (forall|w: int|
                    #[trigger] r.history.contains(w) <==> w == v as int),
            },
            epoch == old(self).current_epoch ==> {
                &&& forall|j: int|
                    j != k.index as int ==> #[trigger] final(self).spec_entry(j) == old(
                        self,
                    ).spec_entry(j)
                &&& final(self).spec_entry(k.index as int) matches Some(e2) && entry_updated(
                    old(self).spec_entry(k.index as int),
                    e2,
                    value@,
                    v as int,
                    storage,
                    deps@,
                ) && r@.value.content == e2.value@ && r@.value.validity is Valid && r@.history
                    == e2.history.ranges@
            },
    {
        let idx = k.index as usize;
        if epoch != self.current_epoch {
            if idx < self.entries.len() {
                match &self.entries[idx] {
                    Option::Some(e) => {
                        proof {
                            self.lemma_entry_history_wf(k.index as int);
                        }
                        return DiceComputedValue::new(
                            e.value.duplicate().into_maybe_valid(),
                            e.history.duplicate(),
                        );
                    },
                    Option::None => {},
                }
            }
            return DiceComputedValue::new(value.into_maybe_valid(), VersionRanges::verified(v));
        }
        let ghost pre = *self;
        while self.entries.len() <= idx
            invariant
                self.current_epoch == pre.current_epoch,
                pre.entries@.len() <= self.entries@.len(),
                forall|t: int|
                    0 <= t < self.entries@.len() ==> #[trigger] self.entries@[t] == pre.spec_entry(
                        t,
                    ),
            decreases idx + 1 - self.entries@.len(),
        {
            self.entries.push(Option::None);
        }
        proof {
            assert(forall|j: int| #[trigger] self.spec_entry(j) == pre.spec_entry(j));
            assert(self.wf());
        }
        let new_entry: VersionedGraphEntry = match &self.entries[idx] {
            Option::Some(e) => {
                if e.value.content.eq(&value.content) {
                    let merged_deps = match storage {
                        StorageType::Normal => deps,
                        StorageType::Injected => {
                            let mut d = crate::key::clone_keys(&e.deps);
                            crate::key::append_keys(&mut d, &deps);
                            d
                        },
                    };
                    VersionedGraphEntry {
                        value: e.value.duplicate(),
                        deps: merged_deps,
                        history: e.history.add_verified(v),
                    }
                } else {
                    VersionedGraphEntry {
                        value,
                        deps,
                        history: VersionRanges::verified(v),
                    }
                }
            },
            Option::None => {
                VersionedGraphEntry {
                    value,
                    deps,
                    history: VersionRanges::verified(v),
                }
            },
        };
        let reply = DiceComputedValue::new(
            new_entry.value.duplicate().into_maybe_valid(),
            new_entry.history.duplicate(),
        );
        self.entries.set(idx, Option::Some(new_entry));
        reply
    }
}

} // verus!
