//! Indexing of an append-only chain into a relational store: gap detection
//! against what is stored, the indexer's decisions and its high-water mark,
//! the runtime-version cache, the writer pool's dispatch, the aggregator's
//! buffer, and the rows a writer persists.
use vstd::prelude::*;

pub mod aggregator;
pub mod block;
pub mod error;
pub mod gaps;
pub mod indexer;
pub mod persist;
pub mod pool;
pub mod version_cache;
pub mod watermark;

verus! {

} // verus!
