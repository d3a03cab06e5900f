//! Keys and the key index.
//!
//! A key is an opaque identifier for a unit of computation. User keys are
//! interned into a `DiceKeyIndex` that maps a compact integer id to the user
//! key, so the engine manipulates small ids.

use vstd::prelude::*;

verus! {

/// A compact interned key id.
#[derive(Clone, Copy, PartialEq, Eq, Structural, Debug, Hash)]
pub struct DiceKey {
    pub index: u32,
}

/// The key on whose behalf a dependency is being resolved: either the root of
/// a request or some key whose dependencies are being checked or computed.
#[derive(Clone, Copy, PartialEq, Eq, Structural, Debug)]
pub enum ParentKey {
    Root,
    Key(DiceKey),
}

/// An append-only arena interning user keys (here: their names) into compact
/// ids. The id of a key is its position in the arena.
pub struct DiceKeyIndex {
    pub keys: Vec<String>,
}

impl DiceKeyIndex {
    /// No user key is interned twice.
    pub open spec fn wf(self) -> bool {
        forall|i: int, j: int|
            0 <= i < j < self.keys@.len() ==> (#[trigger] self.keys@[i])@ != (#[trigger] self.keys@[j])@
    }

    /// The user key behind an id.
    pub open spec fn spec_get(self, k: DiceKey) -> Seq<char> {
        self.keys@[k.index as int]@
    }

    /// Is `k` an id this index has handed out?
    pub open spec fn key_valid(self, k: DiceKey) -> bool {
        k.index < self.keys@.len()
    }

    pub fn new() -> (r: Self)
        ensures
            r.wf(),
            r.keys@.len() == 0,
    {
        DiceKeyIndex { keys: Vec::new() }
    }

    /// The number of interned keys.
    pub fn len(&self) -> (r: usize)
        ensures
            r == self.keys@.len(),
    {
        self.keys.len()
    }

    /// Intern a user key: return the existing id if the key is known, else
    /// append it and return the fresh id. Existing ids keep their meaning.
    #[verifier::loop_isolation(false)]
    pub fn index(&mut self, key: &String) -> (k: DiceKey)
        requires
            old(self).wf(),
            old(self).keys@.len() < u32::MAX,
        ensures
            final(self).wf(),
            final(self).key_valid(k),
            final(self).spec_get(k) == key@,
            old(self).keys@.len() <= final(self).keys@.len(),
            forall|i: int|
                0 <= i < old(self).keys@.len() ==> (#[trigger] final(self).keys@[i])@ == old(
                    self,
                ).keys@[i]@,
    {
        let n = self.keys.len();
        let mut i: usize = 0;
        while i < n
            invariant
                i <= n,
                forall|t: int| 0 <= t < i ==> (#[trigger] self.keys@[t])@ != key@,
            decreases n - i,
        {
            if self.keys[i].eq(key) {
                return DiceKey { index: i as u32 };
            }
            i += 1;
        }
        let ghost old_keys = self.keys@;
        self.keys.push(key.clone());
        proof {
            assert forall|a: int, b: int|
                0 <= a < b < self.keys@.len() implies (#[trigger] self.keys@[a])@ != (
            #[trigger] self.keys@[b])@ by {
                if b < old_keys.len() {
                    assert(self.keys@[a] == old_keys[a]);
                    assert(self.keys@[b] == old_keys[b]);
                } else {
                    assert(self.keys@[a] == old_keys[a]);
                }
            }
        }
        DiceKey { index: n as u32 }
    }

    /// The user key behind an id handed out by this index.
    pub fn get(&self, k: DiceKey) -> (r: &String)
        requires
            self.key_valid(k),
        ensures
            r@ == self.spec_get(k),
    {
        &self.keys[k.index as usize]
    }
}

/// An exact copy of a list of key ids.
pub fn clone_keys(v: &Vec<DiceKey>) -> (r: Vec<DiceKey>)
    ensures
        r@ == v@,
{
    let mut r: Vec<DiceKey> = Vec::new();
    let mut i: usize = 0;
    while i < v.len()
        invariant
            i <= v@.len(),
            r@ == v@.subrange(0, i as int),
        decreases v@.len() - i,
    {
        r.push(v[i]);
        proof {
            assert(r@ =~= v@.subrange(0, i + 1 as int));
        }
        i += 1;
    }
    proof {
        assert(r@ =~= v@);
    }
    r
}

/// Append all ids of `src` to `dst`.
pub fn append_keys(dst: &mut Vec<DiceKey>, src: &Vec<DiceKey>)
    ensures
        final(dst)@ == old(dst)@ + src@,
{
    let ghost base = dst@;
    let mut i: usize = 0;
    while i < src.len()
        invariant
            i <= src@.len(),
            dst@ == base + src@.subrange(0, i as int),
        decreases src@.len() - i,
    {
        dst.push(src[i]);
        proof {
            assert(dst@ =~= base + src@.subrange(0, i + 1 as int));
        }
        i += 1;
    }
    proof {
        assert(dst@ =~= base + src@);
    }
}

} // verus!
