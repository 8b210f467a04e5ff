//! The block indexer's decisions. The indexer starts, runs one reconciliation
//! pass (reindex), then crawls on every tick; a failed send downstream stops it
//! for good. Whoever drives it performs the action returned for each event and
//! hands back what came of it as the next event.
use vstd::prelude::*;
use crate::watermark::{fold_max, seq_max, lemma_seq_max_bounds};

verus! {

#[derive(Clone, Copy, Debug, PartialEq, Eq, Structural)]
pub enum Phase {
    Starting,
    Reindexing,
    Crawling,
    Stopped,
}

/// What the driver reports to the indexer.
#[derive(Clone, Debug)]
pub enum Event {
    /// The indexer was started.
    Started,
    /// The crawl interval elapsed.
    Tick,
    /// A reindex pass succeeded: the storage's max persisted number, and the
    /// numbers of the blocks fetched.
    ReindexDone { storage_max: u32, fetched: Vec<u32> },
    /// A crawl pass succeeded with the numbers of the blocks fetched.
    CrawlDone { fetched: Vec<u32> },
    /// The pass under way failed; the failure has been logged.
    PassFailed,
    /// Sending a batch downstream failed.
    SendFailed,
}

/// What the driver is to do next.
#[derive(Clone, Copy, Debug, PartialEq, Eq, Structural)]
pub enum Action {
    /// Nothing.
    Idle,
    /// Run a reconciliation pass over the numbers above `above`.
    Reindex { above: u32 },
    /// Fetch every block numbered above `above`.
    Crawl { above: u32 },
    /// Send the batch just fetched downstream.
    Emit,
    /// Stop the indexer.
    Stop,
}

/// The indexer's state as plain values.
#[derive(Clone, Copy, Debug, PartialEq, Eq, Structural)]
pub struct IndexerState {
    /// Every block numbered at or below it is known to be persisted.
    pub last_max: u32,
    pub phase: Phase,
}

/// The state after `e` arrives in state `s`.
pub open spec fn next_state(s: IndexerState, e: Event) -> IndexerState {
    if s.phase == Phase::Stopped {
        s
    } else {
        match e {
            Event::SendFailed => IndexerState { phase: Phase::Stopped, ..s },
            Event::Started => if s.phase == Phase::Starting {
                IndexerState { phase: Phase::Reindexing, ..s }
            } else {
                s
            },
            Event::Tick => s,
            Event::ReindexDone { storage_max, fetched } => if s.phase == Phase::Reindexing {
                IndexerState {
                    last_max: seq_max(storage_max as int, fetched@) as u32,
                    phase: Phase::Crawling,
                }
            } else {
                s
            },
            Event::CrawlDone { fetched } => if s.phase == Phase::Crawling {
                IndexerState { last_max: seq_max(s.last_max as int, fetched@) as u32, ..s }
            } else {
                s
            },
            Event::PassFailed => if s.phase == Phase::Reindexing {
                IndexerState { phase: Phase::Crawling, ..s }
            } else {
                s
            },
        }
    }
}

/// The action taken when `e` arrives in state `s`.
pub open spec fn action_of(s: IndexerState, e: Event) -> Action {
    if s.phase == Phase::Stopped {
        Action::Idle
    } else {
        match e {
            Event::SendFailed => Action::Stop,
            Event::Started => if s.phase == Phase::Starting {
                Action::Reindex { above: s.last_max }
            } else {
                Action::Idle
            },
            Event::Tick => if s.phase == Phase::Crawling {
                Action::Crawl { above: s.last_max }
            } else {
                Action::Idle
            },
            Event::ReindexDone { .. } => if s.phase == Phase::Reindexing {
                Action::Emit
            } else {
                Action::Idle
            },
            Event::CrawlDone { .. } => if s.phase == Phase::Crawling {
                Action::Emit
            } else {
                Action::Idle
            },
            Event::PassFailed => Action::Idle,
        }
    }
}

/// The state after the events `es`, in order, starting from `s`.
pub open spec fn run(s: IndexerState, es: Seq<Event>) -> IndexerState
    decreases es.len(),
{
    if es.len() == 0 {
        s
    } else {
        run(next_state(s, es[0]), es.drop_first())
    }
}

/// After a successful reindex pass the high-water mark is the maximum of the
/// storage's max persisted number and of the fetched numbers: never less than
/// either, and equal to one of them.
pub proof fn lemma_reindex_sets_high_water_mark(s: IndexerState, storage_max: u32, fetched: Vec<u32>)
    requires
        s.phase == Phase::Reindexing,
    ensures
        ({
            let t = next_state(s, Event::ReindexDone { storage_max, fetched });
            &&& t.phase == Phase::Crawling
            &&& t.last_max >= storage_max
            &&& forall|i: int| 0 <= i < fetched@.len() ==> t.last_max >= fetched@[i]
            &&& (t.last_max == storage_max || fetched@.contains(t.last_max))
        }),
{
    lemma_seq_max_bounds(storage_max as int, fetched@);
    let m = seq_max(storage_max as int, fetched@);
    if m != storage_max as int {
        let i = choose|i: int| 0 <= i < fetched@.len() && m == fetched@[i] as int;
        assert(fetched@[i] == m as u32);
    }
}

/// A single event never lowers the high-water mark, except the end of a
/// reindex pass; once crawling, the indexer crawls or is stopped.
pub proof fn lemma_step_keeps_high_water_mark(s: IndexerState, e: Event)
    requires
        s.phase != Phase::Reindexing,
    ensures
        next_state(s, e).last_max >= s.last_max,
        (s.phase == Phase::Crawling || s.phase == Phase::Stopped) ==> (next_state(s, e).phase
            == Phase::Crawling || next_state(s, e).phase == Phase::Stopped),
{
    match e {
        Event::CrawlDone { fetched } => {
            lemma_seq_max_bounds(s.last_max as int, fetched@);
        },
        _ => {},
    }
}

/// Across any sequence of events once the indexer crawls (passes, ticks,
/// failures, however the backend grew), the high-water mark never decreases.
pub proof fn lemma_crawling_never_lowers_high_water_mark(s: IndexerState, es: Seq<Event>)
    requires
        s.phase == Phase::Crawling || s.phase == Phase::Stopped,
    ensures
        run(s, es).last_max >= s.last_max,
        run(s, es).phase == Phase::Crawling || run(s, es).phase == Phase::Stopped,
    decreases es.len(),
{
    if es.len() > 0 {
        lemma_step_keeps_high_water_mark(s, es[0]);
        lemma_crawling_never_lowers_high_water_mark(next_state(s, es[0]), es.drop_first());
    }
}

/// A stopped indexer stays stopped and does nothing, whatever arrives.
pub proof fn lemma_stopped_stays_idle(s: IndexerState, es: Seq<Event>)
    requires
        s.phase == Phase::Stopped,
    ensures
        run(s, es) == s,
        forall|e: Event| next_state(s, e) == s && action_of(s, e) == Action::Idle,
    decreases es.len(),
{
    if es.len() > 0 {
        lemma_stopped_stays_idle(next_state(s, es[0]), es.drop_first());
    }
}

/// A failed send downstream stops the indexer, and after it no event leads to
/// a reindex or a crawl pass.
pub proof fn lemma_send_failure_stops(s: IndexerState, es: Seq<Event>)
    ensures
        next_state(s, Event::SendFailed).phase == Phase::Stopped,
        run(next_state(s, Event::SendFailed), es) == next_state(s, Event::SendFailed),
        forall|i: int| 0 <= i < es.len() ==> action_of(
            run(next_state(s, Event::SendFailed), es.take(i)),
            #[trigger] es[i],
        ) == Action::Idle,
{
    let t = next_state(s, Event::SendFailed);
    lemma_stopped_stays_idle(t, es);
    assert forall|i: int| 0 <= i < es.len() implies action_of(run(t, es.take(i)), #[trigger] es[i])
        == Action::Idle by {
        lemma_stopped_stays_idle(t, es.take(i));
    }
}

/// The indexer, owning its high-water mark.
pub struct BlocksIndexer {
    state: IndexerState,
}

impl View for BlocksIndexer {
    type V = IndexerState;

    closed spec fn view(&self) -> IndexerState {
        self.state
    }
}

impl BlocksIndexer {
    pub fn new() -> (r: BlocksIndexer)
        ensures
            r@ == (IndexerState { last_max: 0, phase: Phase::Starting }),
    {
        BlocksIndexer { state: IndexerState { last_max: 0, phase: Phase::Starting } }
    }

    pub fn last_max(&self) -> (r: u32)
        ensures
            r == self@.last_max,
    {
        self.state.last_max
    }

    pub fn phase(&self) -> (r: Phase)
        ensures
            r == self@.phase,
    {
        self.state.phase
    }

    /// Takes one event: moves to the next state and says what to do.
    pub fn handle(&mut self, event: &Event) -> (r: Action)
        ensures
            final(self)@ == next_state(old(self)@, *event),
            r == action_of(old(self)@, *event),
    {
        let s = self.state;
        if s.phase == Phase::Stopped {
            return Action::Idle;
        }
        match event {
            Event::SendFailed => {
                self.state = IndexerState { phase: Phase::Stopped, ..s };
                Action::Stop
            },
            Event::Started => {
                if s.phase == Phase::Starting {
                    self.state = IndexerState { phase: Phase::Reindexing, ..s };
                    Action::Reindex { above: s.last_max }
                } else {
                    Action::Idle
                }
            },
            Event::Tick => {
                if s.phase == Phase::Crawling {
                    Action::Crawl { above: s.last_max }
                } else {
                    Action::Idle
                }
            },
            Event::ReindexDone { storage_max, fetched } => {
                if s.phase == Phase::Reindexing {
                    let m = fold_max(*storage_max, fetched);
                    self.state = IndexerState { last_max: m, phase: Phase::Crawling };
                    Action::Emit
                } else {
                    Action::Idle
                }
            },
            Event::CrawlDone { fetched } => {
                if s.phase == Phase::Crawling {
                    let m = fold_max(s.last_max, fetched);
                    self.state = IndexerState { last_max: m, ..s };
                    Action::Emit
                } else {
                    Action::Idle
                }
            },
            Event::PassFailed => {
                if s.phase == Phase::Reindexing {
                    self.state = IndexerState { phase: Phase::Crawling, ..s };
                }
                Action::Idle
            },
        }
    }
}

} // verus!
