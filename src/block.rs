//! Blocks as the indexer sees them: a header read from the chain backend, and
//! the same header decorated with the protocol version active at it.
use vstd::prelude::*;

verus! {

/// What the indexer reads of a backend block's header.
#[derive(Clone, Debug)]
pub struct BlockHeader {
    pub hash: Vec<u8>,
    pub parent_hash: Vec<u8>,
    pub number: u32,
    pub state_root: Vec<u8>,
    pub extrinsics_root: Vec<u8>,
}

/// A backend block together with the spec version resolved for it.
#[derive(Clone, Debug)]
pub struct Block {
    pub header: BlockHeader,
    pub spec_version: u32,
}

impl Block {
    pub fn new(header: BlockHeader, spec_version: u32) -> (r: Block)
        ensures
            r.header == header,
            r.spec_version == spec_version,
    {
        Block { header, spec_version }
    }
}

/// The group of blocks produced by one indexing pass.
#[derive(Clone, Debug)]
pub struct BatchBlock {
    pub inner: Vec<Block>,
}

impl BatchBlock {
    pub fn new(inner: Vec<Block>) -> (r: BatchBlock)
        ensures
            r.inner@ == inner@,
    {
        BatchBlock { inner }
    }
}

/// Which block numbers a pass asks the backend for.
#[derive(Clone, Debug)]
pub enum Filter {
    /// The numbers listed (the gaps found in storage).
    Among(Vec<u32>),
    /// Every number strictly above the bound.
    Above(u32),
}

impl Filter {
    pub open spec fn accepts(&self, n: u32) -> bool {
        match self {
            Filter::Among(v) => v@.contains(n),
            Filter::Above(b) => n > *b,
        }
    }

    pub fn matches(&self, n: u32) -> (r: bool)
        ensures
            r == self.accepts(n),
    {
        match self {
            Filter::Among(v) => contains_number(v, n),
            Filter::Above(b) => n > *b,
        }
    }
}

/// Whether `n` occurs in `v`.
pub fn contains_number(v: &Vec<u32>, n: u32) -> (r: bool)
    ensures
        r == v@.contains(n),
{
    let mut i: usize = 0;
    while i < v.len()
        invariant
            i <= v.len(),
            forall|k: int| 0 <= k < i ==> v@[k] != n,
        decreases v.len() - i,
    {
        if v[i] == n {
            assert(v@[i as int] == n);
            return true;
        }
        i = i + 1;
    }
    false
}

/// The headers of `s` whose number `f` accepts, in their order.
pub open spec fn selected(s: Seq<BlockHeader>, f: Filter) -> Seq<BlockHeader>
    decreases s.len(),
{
    if s.len() == 0 {
        Seq::empty()
    } else if f.accepts(s[0].number) {
        seq![s[0]] + selected(s.drop_first(), f)
    } else {
        selected(s.drop_first(), f)
    }
}

/// Keeps the headers, in backend order, whose number the filter accepts.
pub fn select_blocks(backend: Vec<BlockHeader>, filter: &Filter) -> (r: Vec<BlockHeader>)
    ensures
        r@ == selected(backend@, *filter),
{
    let ghost all = backend@;
    let mut rest = backend;
    let mut out: Vec<BlockHeader> = Vec::new();
    while rest.len() > 0
        invariant
            out@ + selected(rest@, *filter) == selected(all, *filter),
        decreases rest.len(),
    {
        let ghost before = rest@;
        let ghost out_before = out@;
        let h = rest.remove(0);
        assert(rest@ == before.drop_first());
        if filter.matches(h.number) {
            out.push(h);
            assert(out@ + selected(rest@, *filter) =~= out_before + (seq![h] + selected(rest@, *filter)));
        }
    }
    assert(selected(rest@, *filter) =~= Seq::<BlockHeader>::empty());
    assert(out@ + Seq::<BlockHeader>::empty() =~= out@);
    out
}

} // verus!
