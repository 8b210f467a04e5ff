//! The dispatcher of a pool of storage writers behind one address. Each
//! writer runs at most one write at a time; a write sent while every writer is
//! busy waits in the queue, in arrival order, and is never refused.
use vstd::prelude::*;

verus! {

/// How many writers are busy.
pub open spec fn in_flight(ws: Seq<Option<u64>>) -> nat
    decreases ws.len(),
{
    if ws.len() == 0 {
        0
    } else {
        in_flight(ws.drop_last()) + if ws.last().is_some() { 1nat } else { 0nat }
    }
}

pub open spec fn all_busy(ws: Seq<Option<u64>>) -> bool {
    forall|i: int| 0 <= i < ws.len() ==> (#[trigger] ws[i]).is_some()
}

/// At most one write per writer is in flight, and the count reaches the
/// pool's size exactly when every writer is busy.
pub proof fn lemma_in_flight_at_most_size(ws: Seq<Option<u64>>)
    ensures
        in_flight(ws) <= ws.len(),
        in_flight(ws) == ws.len() <==> all_busy(ws),
    decreases ws.len(),
{
    if ws.len() > 0 {
        lemma_in_flight_at_most_size(ws.drop_last());
        if all_busy(ws) {
            assert forall|i: int| 0 <= i < ws.drop_last().len() implies (
            #[trigger] ws.drop_last()[i]).is_some() by {
                assert(ws.drop_last()[i] == ws[i]);
            }
        }
        if in_flight(ws) == ws.len() {
            assert forall|i: int| 0 <= i < ws.len() implies (#[trigger] ws[i]).is_some() by {
                if i < ws.len() - 1 {
                    assert(ws.drop_last()[i] == ws[i]);
                }
            }
        }
    }
}

/// Changing one writer's slot changes the count by what left and what came.
pub proof fn lemma_in_flight_update(ws: Seq<Option<u64>>, i: int, v: Option<u64>)
    requires
        0 <= i < ws.len(),
    ensures
        in_flight(ws.update(i, v)) + (if ws[i].is_some() { 1int } else { 0int }) == in_flight(ws)
            + (if v.is_some() { 1int } else { 0int }),
    decreases ws.len(),
{
    if i == ws.len() - 1 {
        assert(ws.update(i, v).drop_last() =~= ws.drop_last());
    } else {
        assert(ws.update(i, v).drop_last() =~= ws.drop_last().update(i, v));
        lemma_in_flight_update(ws.drop_last(), i, v);
    }
}

/// Where a write went.
#[derive(Clone, Copy, Debug, PartialEq, Eq, Structural)]
pub enum Dispatch {
    /// Started at once on this writer.
    Assigned { worker: usize },
    /// Waiting for a writer to become free.
    Queued,
}

/// The pool as plain values: what each writer runs, and what waits.
pub struct PoolView {
    pub busy: Seq<Option<u64>>,
    pub pending: Seq<u64>,
}

pub struct ActorPool {
    busy: Vec<Option<u64>>,
    pending: Vec<u64>,
    cursor: usize,
}

impl View for ActorPool {
    type V = PoolView;

    closed spec fn view(&self) -> PoolView {
        PoolView { busy: self.busy@, pending: self.pending@ }
    }
}

impl ActorPool {
    /// Writers exist, and a write waits only while every writer is busy.
    pub closed spec fn wf(&self) -> bool {
        &&& self.busy@.len() > 0
        &&& self.cursor < self.busy@.len()
        &&& self.pending@.len() > 0 ==> all_busy(self.busy@)
    }

    /// A pool of `size` idle writers.
    pub fn new(size: usize) -> (r: ActorPool)
        requires
            size > 0,
        ensures
            r.wf(),
            r@.busy == Seq::new(size as nat, |i: int| None::<u64>),
            r@.pending.len() == 0,
    {
        let mut busy: Vec<Option<u64>> = Vec::new();
        let mut i: usize = 0;
        while i < size
            invariant
                i <= size,
                busy@ == Seq::new(i as nat, |k: int| None::<u64>),
            decreases size - i,
        {
            busy.push(None);
            i = i + 1;
        }
        ActorPool { busy, pending: Vec::new(), cursor: 0 }
    }

    pub fn size(&self) -> (r: usize)
        ensures
            r == self@.busy.len(),
    {
        self.busy.len()
    }

    /// Sends write `job` to the pool: it starts on an idle writer, taken in
    /// turn, or waits in the queue when all are busy.
    pub fn submit(&mut self, job: u64) -> (r: Dispatch)
        requires
            old(self).wf(),
        ensures
            final(self).wf(),
            final(self)@.busy.len() == old(self)@.busy.len(),
            in_flight(final(self)@.busy) <= final(self)@.busy.len(),
            all_busy(old(self)@.busy) <==> r == Dispatch::Queued,
            in_flight(old(self)@.busy) == old(self)@.busy.len() <==> r == Dispatch::Queued,
            r == Dispatch::Queued ==> final(self)@.busy == old(self)@.busy
                && final(self)@.pending == old(self)@.pending.push(job),
            match r {
                Dispatch::Assigned { worker } => {
                    &&& worker < old(self)@.busy.len()
                    &&& old(self)@.busy[worker as int].is_none()
                    &&& final(self)@.busy == old(self)@.busy.update(worker as int, Some(job))
                    &&& final(self)@.pending == old(self)@.pending
                    &&& in_flight(final(self)@.busy) == in_flight(old(self)@.busy) + 1
                },
                Dispatch::Queued => true,
            },
    {
        proof {
            lemma_in_flight_at_most_size(old(self)@.busy);
        }
        let n = self.busy.len();
        let mut i: usize = self.cursor;
        while i < n
            invariant
                self.wf(),
                *self == *old(self),
                n == self.busy@.len(),
                self.cursor <= i <= n,
                forall|j: int| self.cursor <= j < i ==> (#[trigger] self.busy@[j]).is_some(),
            decreases n - i,
        {
            if self.busy[i].is_none() {
                return self.start_on(i, job);
            }
            i = i + 1;
        }
        let mut i: usize = 0;
        while i < self.cursor
            invariant
                self.wf(),
                *self == *old(self),
                n == self.busy@.len(),
                i <= self.cursor,
                forall|j: int| self.cursor <= j < n ==> (#[trigger] self.busy@[j]).is_some(),
                forall|j: int| 0 <= j < i ==> (#[trigger] self.busy@[j]).is_some(),
            decreases self.cursor - i,
        {
            if self.busy[i].is_none() {
                return self.start_on(i, job);
            }
            i = i + 1;
        }
        assert(all_busy(self.busy@));
        proof {
            lemma_in_flight_at_most_size(self.busy@);
        }
        self.pending.push(job);
        Dispatch::Queued
    }

    fn start_on(&mut self, worker: usize, job: u64) -> (r: Dispatch)
        requires
            old(self).wf(),
            worker < old(self)@.busy.len(),
            old(self)@.busy[worker as int].is_none(),
        ensures
            final(self).wf(),
            r == (Dispatch::Assigned { worker }),
            !all_busy(old(self)@.busy),
            final(self)@.busy == old(self)@.busy.update(worker as int, Some(job)),
            final(self)@.pending == old(self)@.pending,
            in_flight(final(self)@.busy) == in_flight(old(self)@.busy) + 1,
            in_flight(final(self)@.busy) <= final(self)@.busy.len(),
    {
        proof {
            lemma_in_flight_update(self.busy@, worker as int, Some(job));
        }
        self.busy.set(worker, Some(job));
        proof {
            lemma_in_flight_at_most_size(self.busy@);
        }
        self.cursor = if worker < self.busy.len() - 1 { worker + 1 } else { 0 };
        Dispatch::Assigned { worker }
    }

    /// `worker` finished its write (or failed it; the failure is the
    /// writer's to report). The oldest waiting write, if any, starts on it
    /// and is returned.
    pub fn complete(&mut self, worker: usize) -> (r: Option<u64>)
        requires
            old(self).wf(),
            worker < old(self)@.busy.len(),
        ensures
            final(self).wf(),
            old(self)@.pending.len() == 0 ==> r.is_none()
                && final(self)@.busy == old(self)@.busy.update(worker as int, None)
                && final(self)@.pending == old(self)@.pending,
            old(self)@.pending.len() > 0 ==> r == Some(old(self)@.pending[0])
                && final(self)@.busy == old(self)@.busy.update(worker as int, r)
                && final(self)@.pending == old(self)@.pending.drop_first(),
    {
        if self.pending.len() == 0 {
            self.busy.set(worker, None);
            None
        } else {
            let next = self.pending.remove(0);
            self.busy.set(worker, Some(next));
            Some(next)
        }
    }
}

} // verus!
