//! The per-cell cache of global names.
//!
//! The names in scope for an interpreted file are defined by its cell and its
//! file type. They are collected from three sources: the built-in globals for
//! the file type; the prelude module — consulted only for build files or when
//! the file lives outside the prelude's own cell, and contributing the
//! attributes of its `native` value for build files; and the cell's root
//! import, when one is configured. Collecting the names of a source means
//! evaluating interpreted code, which may fail; the outcome, success or
//! failure, is cached per (cell, file type) pair.

use vstd::prelude::*;

verus! {

/// The type of an interpreted file.
#[derive(Clone, Copy, PartialEq, Eq, Structural, Debug)]
pub enum StarlarkFileType {
    Buck,
    Package,
    Bzl,
    Bxl,
}

/// Evaluating the interpreted code behind one of the name sources failed.
#[derive(Clone, Copy, PartialEq, Eq, Structural, Debug)]
pub struct GlobalsComputationError {}

/// The prelude module, already loaded: the cell it lives in, its exported
/// names, and the attributes of its `native` value if it has one.
pub struct PreludeEnv {
    pub cell: String,
    pub names: Vec<String>,
    pub native_attrs: Option<Vec<String>>,
}

/// The set of names behind a list of strings.
pub open spec fn names_set(s: Seq<String>) -> Set<Seq<char>> {
    Set::new(|n: Seq<char>| exists|i: int| 0 <= i < s.len() && (#[trigger] s[i])@ == n)
}

/// No name is listed twice.
pub open spec fn names_nodup(s: Seq<String>) -> bool {
    forall|i: int, j: int| 0 <= i < j < s.len() ==> (#[trigger] s[i])@ != (#[trigger] s[j])@
}

/// Is the prelude consulted for a file of this type in this cell? Build files
/// always see it; other files only when they live outside the prelude's cell.
pub open spec fn prelude_consulted(
    file_type: StarlarkFileType,
    prelude_cell: Seq<char>,
    cell: Seq<char>,
) -> bool {
    file_type is Buck || prelude_cell != cell
}

/// Is a name in the list?
fn contains_name(v: &Vec<String>, n: &String) -> (r: bool)
    ensures
        r == names_set(v@).contains(n@),
{
    let mut i: usize = 0;
    while i < v.len()
        invariant
            i <= v@.len(),
            forall|t: int| 0 <= t < i ==> (#[trigger] v@[t])@ != n@,
        decreases v@.len() - i,
    {
        if v[i].eq(n) {
            proof {
                assert(names_set(v@).contains(n@));
            }
            return true;
        }
        i += 1;
    }
    proof {
        assert(!names_set(v@).contains(n@));
    }
    false
}

/// Add every name of `src` that `out` does not hold yet.
#[verifier::loop_isolation(false)]
fn insert_all(out: &mut Vec<String>, src: &Vec<String>)
    requires
        names_nodup(old(out)@),
    ensures
        names_nodup(final(out)@),
        names_set(final(out)@) =~= names_set(old(out)@).union(names_set(src@)),
{
    let mut i: usize = 0;
    while i < src.len()
        invariant
            i <= src@.len(),
            names_nodup(out@),
            names_set(out@) =~= names_set(old(out)@).union(
                names_set(src@.subrange(0, i as int)),
            ),
        decreases src@.len() - i,
    {
        let ghost pre = out@;
        if !contains_name(out, &src[i]) {
            out.push(src[i].clone());
            proof {
                assert forall|a: int, b: int|
                    0 <= a < b < out@.len() implies (#[trigger] out@[a])@ != (
                #[trigger] out@[b])@ by {
                    if b < pre.len() {
                        assert(out@[a] == pre[a]);
                        assert(out@[b] == pre[b]);
                    } else {
                        assert(out@[a] == pre[a]);
                        assert(out@[b]@ == src@[i as int]@);
                        assert(names_set(pre).contains(pre[a]@));
                    }
                }
                assert forall|n: Seq<char>| #[trigger] names_set(out@).contains(n) implies
                    names_set(pre).contains(n) || n == src@[i as int]@ by {
                    let t = choose|t: int| 0 <= t < out@.len() && (#[trigger] out@[t])@ == n;
                    if t < pre.len() {
                        assert(names_set(pre).contains(n));
                    }
                }
                assert forall|n: Seq<char>|
                    names_set(pre).contains(n) || n == src@[i as int]@ implies #[trigger] names_set(
                    out@,
                ).contains(n) by {
                    if names_set(pre).contains(n) {
                        let t = choose|t: int| 0 <= t < pre.len() && (#[trigger] pre[t])@ == n;
                        assert(out@[t]@ == n);
                    } else {
                        assert(out@[out@.len() - 1]@ == n);
                    }
                }
            }
        }
        proof {
            assert(names_set(src@.subrange(0, i + 1 as int)) =~= names_set(
                src@.subrange(0, i as int),
            ).insert(src@[i as int]@)) by {
                let sub = src@.subrange(0, i + 1 as int);
                assert forall|n: Seq<char>| #[trigger] names_set(sub).contains(n) implies
                    names_set(src@.subrange(0, i as int)).insert(src@[i as int]@).contains(n) by {
                    let t = choose|t: int| 0 <= t < sub.len() && (#[trigger] sub[t])@ == n;
                    if t < i {
                        assert(src@.subrange(0, i as int)[t]@ == n);
                    }
                }
                assert forall|n: Seq<char>|
                    names_set(src@.subrange(0, i as int)).insert(src@[i as int]@).contains(
                        n,
                    ) implies #[trigger] names_set(sub).contains(n) by {
                    if names_set(src@.subrange(0, i as int)).contains(n) {
                        let t = choose|t: int|
                            0 <= t < i && (#[trigger] src@.subrange(0, i as int)[t])@ == n;
                        assert(sub[t]@ == n);
                    } else {
                        assert(sub[i as int]@ == n);
                    }
                }
            }
            assert(names_set(out@) =~= names_set(old(out)@).union(
                names_set(src@.subrange(0, i + 1 as int)),
            ));
        }
        i += 1;
    }
    proof {
        assert(src@.subrange(0, src@.len() as int) =~= src@);
    }
}

/// The set of names in scope for a file of the given type in the given cell:
/// the built-in globals, the prelude's names where it is consulted — with the
/// `native` attributes for build files — and the root import's names.
/// The result lists each name once.
pub fn compute_names(
    cell: &String,
    file_type: StarlarkFileType,
    global_names: &Vec<String>,
    prelude: Option<&PreludeEnv>,
    root_import_names: Option<&Vec<String>>,
) -> (r: Vec<String>)
    ensures
        names_nodup(r@),
        names_set(r@) =~= names_set(global_names@).union(
            match prelude {
                Some(p) => if prelude_consulted(file_type, p.cell@, cell@) {
                    names_set(p.names@).union(
                        match p.native_attrs {
                            Some(attrs) => if file_type is Buck {
                                names_set(attrs@)
                            } else {
                                Set::empty()
                            },
                            None => Set::empty(),
                        },
                    )
                } else {
                    Set::empty()
                },
                None => Set::empty(),
            },
        ).union(
            match root_import_names {
                Some(names) => names_set(names@),
                None => Set::empty(),
            },
        ),
{
    let mut res: Vec<String> = Vec::new();
    insert_all(&mut res, global_names);
    match prelude {
        Some(p) => {
            let consulted = match file_type {
                StarlarkFileType::Buck => true,
                _ => !p.cell.eq(cell),
            };
            if consulted {
                insert_all(&mut res, &p.names);
                if matches!(file_type, StarlarkFileType::Buck) {
                    match &p.native_attrs {
                        Some(attrs) => insert_all(&mut res, attrs),
                        None => {},
                    }
                }
            }
        },
        None => {},
    }
    match root_import_names {
        Some(names) => insert_all(&mut res, names),
        None => {},
    }
    res
}

/// One cached outcome: what computing the names for a (cell, file type) pair
/// yielded, error included — a failure is cached like a success.
pub struct GlobalsCacheEntry {
    pub cell: String,
    pub file_type: StarlarkFileType,
    pub names: Result<Vec<String>, GlobalsComputationError>,
}

/// The cache of name sets, one entry per (cell, file type) pair asked so far.
pub struct CachedGlobals {
    pub cached: Vec<GlobalsCacheEntry>,
}

impl CachedGlobals {
    /// No pair is cached twice.
    pub open spec fn wf(self) -> bool {
        forall|i: int, j: int|
            0 <= i < j < self.cached@.len() ==> !((#[trigger] self.cached@[i]).cell@
                == (#[trigger] self.cached@[j]).cell@ && self.cached@[i].file_type
                == self.cached@[j].file_type)
    }

    /// Is some outcome cached for the pair?
    pub open spec fn spec_has(self, cell: Seq<char>, file_type: StarlarkFileType) -> bool {
        exists|i: int|
            0 <= i < self.cached@.len() && (#[trigger] self.cached@[i]).cell@ == cell
                && self.cached@[i].file_type == file_type
    }

    pub fn new() -> (r: Self)
        ensures
            r.wf(),
            r.cached@.len() == 0,
    {
        CachedGlobals { cached: Vec::new() }
    }

    /// The position of the cached outcome for the pair, if any.
    fn find(&self, cell: &String, file_type: StarlarkFileType) -> (r: Option<usize>)
        ensures
            match r {
                Some(i) => i < self.cached@.len() && self.cached@[i as int].cell@ == cell@
                    && self.cached@[i as int].file_type == file_type && self.spec_has(
                    cell@,
                    file_type,
                ),
                None => !self.spec_has(cell@, file_type),
            },
    {
        let mut i: usize = 0;
        while i < self.cached.len()
            invariant
                i <= self.cached@.len(),
                forall|t: int|
                    0 <= t < i ==> !((#[trigger] self.cached@[t]).cell@ == cell@
                        && self.cached@[t].file_type == file_type),
            decreases self.cached@.len() - i,
        {
            let e = &self.cached[i];
            let same_type = match (e.file_type, file_type) {
                (StarlarkFileType::Buck, StarlarkFileType::Buck) => true,
                (StarlarkFileType::Package, StarlarkFileType::Package) => true,
                (StarlarkFileType::Bzl, StarlarkFileType::Bzl) => true,
                (StarlarkFileType::Bxl, StarlarkFileType::Bxl) => true,
                _ => false,
            };
            if same_type && e.cell.eq(cell) {
                return Some(i);
            }
            i += 1;
        }
        Option::None
    }

    /// The names for the pair: answered from the cache when the pair was
    /// asked before — a cached failure is answered as that failure, never
    /// recomputed — and otherwise taken from `computed` (what computing the
    /// names just yielded) and cached, success or failure.
    pub fn get_names(
        &mut self,
        cell: &String,
        file_type: StarlarkFileType,
        computed: Result<Vec<String>, GlobalsComputationError>,
    ) -> (r: Result<Vec<String>, GlobalsComputationError>)
        requires
            old(self).wf(),
        ensures
            final(self).wf(),
            final(self).spec_has(cell@, file_type),
            old(self).spec_has(cell@, file_type) ==> *final(self) == *old(self) && (exists|i: int|
                0 <= i < old(self).cached@.len() && (#[trigger] old(self).cached@[i]).cell@
                    == cell@ && old(self).cached@[i].file_type == file_type && (match old(
                    self,
                ).cached@[i].names {
                    Ok(names) => r matches Ok(out) && out@ == names@,
                    Err(e) => r matches Err(e2) && e2 == e,
                })),
            !old(self).spec_has(cell@, file_type) ==> {
                &&& final(self).cached@.len() == old(self).cached@.len() + 1
                &&& forall|t: int|
                    0 <= t < old(self).cached@.len() ==> #[trigger] final(self).cached@[t] == old(
                        self,
                    ).cached@[t]
                // exactly `computed` is cached under the pair, so a later ask
                // for it is answered with this very outcome
                &&& final(self).cached@.last().cell@ == cell@
                &&& final(self).cached@.last().file_type == file_type
                &&& match computed {
                    Ok(names) => (final(self).cached@.last().names matches Ok(st) && st@ == names@)
                        && (r matches Ok(out) && out@ == names@),
                    Err(e) => (final(self).cached@.last().names matches Err(e3) && e3 == e) && (
                    r matches Err(e2) && e2 == e),
                }
            },
    {
        match self.find(cell, file_type) {
            Some(i) => {
                let e = &self.cached[i];
                let out: Result<Vec<String>, GlobalsComputationError> = match &e.names {
                    Ok(names) => Ok(clone_names(names)),
                    Err(err) => Err(*err),
                };
                return out;
            },
            Option::None => {},
        }
        let ghost pre = *self;
        let stored: Result<Vec<String>, GlobalsComputationError> = match &computed {
            Ok(names) => Ok(clone_names(names)),
            Err(err) => Err(*err),
        };
        self.cached.push(
            GlobalsCacheEntry { cell: cell.clone(), file_type, names: stored },
        );
        proof {
            assert forall|i: int, j: int|
                0 <= i < j < self.cached@.len() implies !((#[trigger] self.cached@[i]).cell@ == (
            #[trigger] self.cached@[j]).cell@ && self.cached@[i].file_type
                == self.cached@[j].file_type) by {
                if j < pre.cached@.len() {
                    assert(self.cached@[i] == pre.cached@[i]);
                    assert(self.cached@[j] == pre.cached@[j]);
                } else {
                    assert(self.cached@[i] == pre.cached@[i]);
                    assert(!pre.spec_has(cell@, file_type));
                }
            }
            assert(self.cached@.last().cell@ == cell@);
            assert(self.spec_has(cell@, file_type));
        }
        computed
    }
}

/// An exact copy of a list of names.
pub fn clone_names(v: &Vec<String>) -> (r: Vec<String>)
    ensures
        r@.len() == v@.len(),
        forall|i: int| 0 <= i < v@.len() ==> (#[trigger] r@[i])@ == v@[i]@,
        r@ == v@,
{
    let mut r: Vec<String> = Vec::new();
    let mut i: usize = 0;
    while i < v.len()
        invariant
            i <= v@.len(),
            r@ == v@.subrange(0, i as int),
        decreases v@.len() - i,
    {
        r.push(v[i].clone());
        proof {
            assert(r@ =~= v@.subrange(0, i + 1 as int));
        }
        i += 1;
    }
    proof {
        assert(r@ =~= v@);
    }
    r
}

} // verus!
