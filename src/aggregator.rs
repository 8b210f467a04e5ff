//! The aggregator's buffer: batches from the indexing side are kept in
//! arrival order until forwarded to the writers, each block exactly once.
use vstd::prelude::*;
use crate::block::{BatchBlock, Block};

verus! {

pub struct Aggregator {
    buffer: Vec<Block>,
}

impl View for Aggregator {
    type V = Seq<Block>;

    closed spec fn view(&self) -> Seq<Block> {
        self.buffer@
    }
}

impl Aggregator {
    pub fn new() -> (r: Aggregator)
        ensures
            r@ == Seq::<Block>::empty(),
    {
        Aggregator { buffer: Vec::new() }
    }

    /// Takes in a batch, after everything received before it.
    pub fn handle(&mut self, batch: BatchBlock)
        ensures
            final(self)@ == old(self)@ + batch.inner@,
    {
        let mut blocks = batch.inner;
        self.buffer.append(&mut blocks);
    }

    /// How many blocks wait to be forwarded.
    pub fn pending(&self) -> (r: usize)
        ensures
            r == self@.len(),
    {
        self.buffer.len()
    }

    /// Hands out every block received and not yet forwarded, in arrival order.
    pub fn drain(&mut self) -> (r: Vec<Block>)
        ensures
            r@ == old(self)@,
            final(self)@ == Seq::<Block>::empty(),
    {
        let mut out: Vec<Block> = Vec::new();
        std::mem::swap(&mut out, &mut self.buffer);
        out
    }
}

} // verus!
