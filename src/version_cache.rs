//! The runtime-version cache: block hash to the spec version active at that
//! block. Entries are filled lazily and never dropped, since finalized history
//! does not change.
use vstd::prelude::*;

verus! {

/// Whether two byte strings are equal.
pub fn bytes_eq(a: &Vec<u8>, b: &Vec<u8>) -> (r: bool)
    ensures
        r == (a@ == b@),
{
    if a.len() != b.len() {
        return false;
    }
    let mut i: usize = 0;
    while i < a.len()
        invariant
            i <= a.len(),
            a@.len() == b@.len(),
            forall|k: int| 0 <= k < i ==> a@[k] == b@[k],
        decreases a.len() - i,
    {
        if a[i] != b[i] {
            return false;
        }
        i = i + 1;
    }
    assert(a@ =~= b@);
    true
}

/// The cache after a version `v` was obtained for `h`: an entry already
/// there is kept, else `v` is recorded.
pub open spec fn after_resolve(m: Map<Seq<u8>, u32>, h: Seq<u8>, v: u32) -> Map<Seq<u8>, u32> {
    if m.contains_key(h) {
        m
    } else {
        m.insert(h, v)
    }
}

pub struct RuntimeVersionCache {
    entries: Vec<(Vec<u8>, u32)>,
    contents: Ghost<Map<Seq<u8>, u32>>,
}

impl View for RuntimeVersionCache {
    type V = Map<Seq<u8>, u32>;

    closed spec fn view(&self) -> Map<Seq<u8>, u32> {
        self.contents@
    }
}

impl RuntimeVersionCache {
    /// One entry per hash, and the entries are exactly the map's.
    pub closed spec fn wf(&self) -> bool {
        &&& forall|i: int, j: int|
            0 <= i < j < self.entries@.len() ==> self.entries@[i].0@ != self.entries@[j].0@
        &&& forall|i: int|
            0 <= i < self.entries@.len() ==> self.contents@.contains_key(#[trigger] self.entries@[i].0@)
                && self.contents@[self.entries@[i].0@] == self.entries@[i].1
        &&& forall|k: Seq<u8>|
            self.contents@.contains_key(k) ==> exists|i: int|
                0 <= i < self.entries@.len() && #[trigger] self.entries@[i].0@ == k
    }

    pub fn new() -> (r: RuntimeVersionCache)
        ensures
            r.wf(),
            r@ == Map::<Seq<u8>, u32>::empty(),
    {
        RuntimeVersionCache { entries: Vec::new(), contents: Ghost(Map::empty()) }
    }

    /// Where the entry for `hash` stands, if any.
    fn position(&self, hash: &Vec<u8>) -> (r: Option<usize>)
        requires
            self.wf(),
        ensures
            r.is_none() <==> !self@.contains_key(hash@),
            r.is_some() ==> r.unwrap() < self.entries@.len() && self.entries@[r.unwrap() as int].0@
                == hash@,
    {
        let mut i: usize = 0;
        while i < self.entries.len()
            invariant
                self.wf(),
                i <= self.entries@.len(),
                forall|k: int| 0 <= k < i ==> self.entries@[k].0@ != hash@,
            decreases self.entries.len() - i,
        {
            if bytes_eq(&self.entries[i].0, hash) {
                assert(self.contents@.contains_key(self.entries@[i as int].0@));
                return Some(i);
            }
            i = i + 1;
        }
        proof {
            if self@.contains_key(hash@) {
                let j = choose|j: int|
                    0 <= j < self.entries@.len() && #[trigger] self.entries@[j].0@ == hash@;
                assert(self.entries@[j].0@ != hash@);
            }
        }
        None
    }

    /// The cached version of the block with this hash, if resolved before.
    pub fn get(&self, hash: &Vec<u8>) -> (r: Option<u32>)
        requires
            self.wf(),
        ensures
            r == (if self@.contains_key(hash@) { Some(self@[hash@]) } else { None::<u32> }),
    {
        match self.position(hash) {
            Some(i) => Some(self.entries[i].1),
            None => None,
        }
    }

    /// Records `version`, obtained from the backend for `hash`, unless another
    /// caller recorded one first; returns the version the cache now holds.
    pub fn resolve(&mut self, hash: Vec<u8>, version: u32) -> (r: u32)
        requires
            old(self).wf(),
        ensures
            final(self).wf(),
            final(self)@ == after_resolve(old(self)@, hash@, version),
            r == final(self)@[hash@],
    {
        match self.position(&hash) {
            Some(i) => self.entries[i].1,
            None => {
                let ghost h = hash@;
                let ghost before = self.entries@;
                self.entries.push((hash, version));
                self.contents = Ghost(self.contents@.insert(h, version));
                assert forall|k: Seq<u8>| self.contents@.contains_key(k) implies exists|i: int|
                    0 <= i < self.entries@.len() && #[trigger] self.entries@[i].0@ == k by {
                    if k == h {
                        assert(self.entries@[before.len() as int].0@ == k);
                    } else {
                        let i = choose|i: int| 0 <= i < before.len() && #[trigger] before[i].0@ == k;
                        assert(self.entries@[i] == before[i]);
                    }
                }
                assert forall|i: int| 0 <= i < self.entries@.len() implies self.contents@.contains_key(
                    #[trigger] self.entries@[i].0@,
                ) && self.contents@[self.entries@[i].0@] == self.entries@[i].1 by {
                    if i < before.len() {
                        assert(self.entries@[i] == before[i]);
                    }
                }
                version
            },
        }
    }
}

/// Two callers resolving the same hash, one after the other, get the same
/// version, and the second leaves the cache as the first left it: no two
/// entries for one hash, whatever each obtained from the backend.
pub proof fn lemma_resolution_agrees(m: Map<Seq<u8>, u32>, h: Seq<u8>, v1: u32, v2: u32)
    ensures
        after_resolve(after_resolve(m, h, v1), h, v2) == after_resolve(m, h, v1),
        after_resolve(after_resolve(m, h, v1), h, v2)[h] == after_resolve(m, h, v1)[h],
        after_resolve(m, h, v1).dom() == m.dom().insert(h),
{
    assert(after_resolve(m, h, v1).dom() =~= m.dom().insert(h));
}

} // verus!
