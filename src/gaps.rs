//! Gap detection: which block numbers of a range storage does not hold, and
//! the decoration of fetched headers with their protocol versions.
use vstd::prelude::*;
use crate::block::{Block, BlockHeader, Filter, contains_number, selected};
use crate::indexer::{Event, IndexerState, Phase, next_state};
use crate::error::ArchiveError;

verus! {

/// `n` lies in `(lo, hi]` and is not among the stored numbers.
pub open spec fn is_missing(stored: Seq<u32>, lo: u32, hi: u32, n: u32) -> bool {
    lo < n && n <= hi && !stored.contains(n)
}

pub open spec fn strictly_increasing(s: Seq<u32>) -> bool {
    forall|i: int, j: int| 0 <= i < j < s.len() ==> s[i] < s[j]
}

/// The numbers in `(lo, hi]` that storage does not hold, in increasing order.
pub fn missing_numbers(stored: &Vec<u32>, lo: u32, hi: u32) -> (r: Vec<u32>)
    ensures
        strictly_increasing(r@),
        forall|n: u32| r@.contains(n) <==> is_missing(stored@, lo, hi, n),
{
    let mut out: Vec<u32> = Vec::new();
    if lo >= hi {
        return out;
    }
    let mut n: u32 = lo;
    while n < hi
        invariant
            lo <= n <= hi,
            strictly_increasing(out@),
            forall|k: int| 0 <= k < out@.len() ==> lo < #[trigger] out@[k] && out@[k] <= n,
            forall|m: u32| out@.contains(m) <==> (is_missing(stored@, lo, hi, m) && m <= n),
        decreases hi - n,
    {
        n = n + 1;
        if !contains_number(stored, n) {
            let ghost before = out@;
            out.push(n);
            assert forall|m: u32| out@.contains(m) <==> (is_missing(stored@, lo, hi, m) && m <= n) by {
                if m == n {
                    assert(out@[before.len() as int] == n);
                }
                if out@.contains(m) && m != n {
                    let k = choose|k: int| 0 <= k < out@.len() && out@[k] == m;
                    assert(k < before.len());
                    assert(before[k] == m);
                }
                if before.contains(m) {
                    let k = choose|k: int| 0 <= k < before.len() && before[k] == m;
                    assert(out@[k] == m);
                }
            }
        }
    }
    out
}

/// The filter of a reconciliation pass: the numbers in `(above, backend_max]`
/// that storage does not hold.
pub fn reindex_filter(stored: &Vec<u32>, above: u32, backend_max: u32) -> (r: Filter)
    ensures
        r matches Filter::Among(v) && strictly_increasing(v@),
        forall|n: u32| r.accepts(n) <==> is_missing(stored@, above, backend_max, n),
{
    Filter::Among(missing_numbers(stored, above, backend_max))
}

/// The filter of a crawl pass: every number above the high-water mark.
pub fn crawl_filter(last_max: u32) -> (r: Filter)
    ensures
        r == Filter::Above(last_max),
{
    Filter::Above(last_max)
}

/// Every header has a resolved version.
pub open spec fn all_resolved(versions: Seq<Option<u32>>) -> bool {
    forall|i: int| 0 <= i < versions.len() ==> versions[i].is_some()
}

/// Pairs each header with its resolved version; fails with
/// `VersionResolution` when some header has none.
pub fn decorate(headers: Vec<BlockHeader>, versions: &Vec<Option<u32>>) -> (r: Result<Vec<Block>, ArchiveError>)
    requires
        headers@.len() == versions@.len(),
    ensures
        r.is_ok() <==> all_resolved(versions@),
        r.is_err() ==> r == Err::<Vec<Block>, ArchiveError>(ArchiveError::VersionResolution),
        r.is_ok() ==> {
            let out = r.unwrap()@;
            &&& out.len() == headers@.len()
            &&& forall|i: int| 0 <= i < out.len() ==> out[i].header == headers@[i]
                && Some(out[i].spec_version) == versions@[i]
        },
{
    let ghost all = headers@;
    let mut rest = headers;
    let mut out: Vec<Block> = Vec::new();
    let mut i: usize = 0;
    while rest.len() > 0
        invariant
            i == out@.len(),
            i + rest@.len() == all.len(),
            all.len() == versions@.len(),
            rest@ == all.subrange(i as int, all.len() as int),
            forall|k: int| 0 <= k < i ==> versions@[k].is_some(),
            forall|k: int| 0 <= k < i ==> out@[k].header == all[k]
                && Some(out@[k].spec_version) == versions@[k],
        decreases rest.len(),
    {
        let h = rest.remove(0);
        assert(i < versions.len());
        match versions[i] {
            Some(v) => {
                out.push(Block::new(h, v));
            },
            None => {
                return Err(ArchiveError::VersionResolution);
            },
        }
        i = i + 1;
    }
    Ok(out)
}

/// The numbers of the given headers, in order.
pub open spec fn numbers_of(s: Seq<BlockHeader>) -> Seq<u32> {
    s.map_values(|h: BlockHeader| h.number)
}

/// The numbers of the given blocks, in order.
pub fn block_numbers(blocks: &Vec<Block>) -> (r: Vec<u32>)
    ensures
        r@.len() == blocks@.len(),
        forall|i: int| 0 <= i < r@.len() ==> r@[i] == blocks@[i].header.number,
{
    let mut out: Vec<u32> = Vec::new();
    let mut i: usize = 0;
    while i < blocks.len()
        invariant
            i <= blocks.len(),
            out@.len() == i,
            forall|k: int| 0 <= k < i ==> out@[k] == blocks@[k].header.number,
        decreases blocks.len() - i,
    {
        out.push(blocks[i].header.number);
        i = i + 1;
    }
    out
}

/// A filter that accepts no number selects nothing.
pub proof fn lemma_select_nothing(s: Seq<BlockHeader>, f: Filter)
    requires
        forall|n: u32| !f.accepts(n),
    ensures
        selected(s, f) == Seq::<BlockHeader>::empty(),
    decreases s.len(),
{
    if s.len() > 0 {
        lemma_select_nothing(s.drop_first(), f);
    }
}

/// Reconciliation is idempotent: when storage already holds every number of
/// the range probed, no number is missing, the backend is asked for no
/// block, and the high-water mark becomes the storage's max unchanged.
pub proof fn lemma_reconciliation_idempotent(
    stored: Seq<u32>,
    lo: u32,
    hi: u32,
    missing: Vec<u32>,
    backend: Seq<BlockHeader>,
    s: IndexerState,
    storage_max: u32,
    fetched: Vec<u32>,
)
    requires
        forall|n: u32| lo < n <= hi ==> stored.contains(n),
        forall|n: u32| missing@.contains(n) <==> is_missing(stored, lo, hi, n),
        fetched@ == numbers_of(selected(backend, Filter::Among(missing))),
        s.phase == Phase::Reindexing,
    ensures
        missing@.len() == 0,
        selected(backend, Filter::Among(missing)).len() == 0,
        next_state(s, Event::ReindexDone { storage_max, fetched }).last_max == storage_max,
{
    if missing@.len() > 0 {
        assert(missing@.contains(missing@[0]));
    }
    assert forall|n: u32| !Filter::Among(missing).accepts(n) by {
        if missing@.contains(n) {
            assert(is_missing(stored, lo, hi, n));
        }
    }
    lemma_select_nothing(backend, Filter::Among(missing));
    assert(fetched@.len() == 0);
}

} // verus!
