use archive_indexer::block::{select_blocks, BlockHeader, Filter};
use archive_indexer::error::ArchiveError;
use archive_indexer::gaps::{
    block_numbers, crawl_filter, decorate, missing_numbers, reindex_filter,
};
use archive_indexer::indexer::{Action, BlocksIndexer, Event, Phase};

fn header(n: u32) -> BlockHeader {
    BlockHeader {
        hash: vec![n as u8, 0xaa],
        parent_hash: vec![n.wrapping_sub(1) as u8, 0xaa],
        number: n,
        state_root: vec![1],
        extrinsics_root: vec![2],
    }
}

fn backend(lo: u32, hi: u32) -> Vec<BlockHeader> {
    (lo..=hi).map(header).collect()
}

fn numbers(hs: &[BlockHeader]) -> Vec<u32> {
    hs.iter().map(|h| h.number).collect()
}

/// Drives a new indexer through a successful reindex pass.
fn reindexed(storage_max: u32, fetched: Vec<u32>) -> BlocksIndexer {
    let mut ix = BlocksIndexer::new();
    assert_eq!(ix.handle(&Event::Started), Action::Reindex { above: 0 });
    assert_eq!(ix.handle(&Event::ReindexDone { storage_max, fetched }), Action::Emit);
    ix
}

#[test]
fn reindex_fetches_exactly_the_gaps() {
    let stored = vec![1, 2, 3, 5, 7, 9];
    let filter = reindex_filter(&stored, 0, 10);
    let fetched = select_blocks(backend(1, 10), &filter);
    assert_eq!(numbers(&fetched), vec![4, 6, 8, 10]);
    let ix = reindexed(9, numbers(&fetched));
    assert_eq!(ix.last_max(), 10);
    assert_eq!(ix.phase(), Phase::Crawling);
}

#[test]
fn crawl_fetches_blocks_above_the_mark() {
    let mut ix = reindexed(10, vec![]);
    assert_eq!(ix.last_max(), 10);
    let action = ix.handle(&Event::Tick);
    assert_eq!(action, Action::Crawl { above: 10 });
    let fetched = select_blocks(backend(1, 12), &crawl_filter(10));
    assert_eq!(numbers(&fetched), vec![11, 12]);
    assert_eq!(ix.handle(&Event::CrawlDone { fetched: numbers(&fetched) }), Action::Emit);
    assert_eq!(ix.last_max(), 12);
}

#[test]
fn reindex_mark_is_max_of_storage_and_fetched() {
    // storage holds 1..=10 but 4: the gap is below the storage max
    let stored = vec![1, 2, 3, 5, 6, 7, 8, 9, 10];
    let fetched = select_blocks(backend(1, 10), &reindex_filter(&stored, 0, 10));
    assert_eq!(numbers(&fetched), vec![4]);
    let ix = reindexed(10, numbers(&fetched));
    assert_eq!(ix.last_max(), 10);
    let ix = reindexed(3, vec![7, 5]);
    assert_eq!(ix.last_max(), 7);
}

#[test]
fn crawl_mark_never_decreases() {
    let mut ix = reindexed(20, vec![]);
    let mut last = ix.last_max();
    let events = vec![
        Event::Tick,
        Event::CrawlDone { fetched: vec![] },
        Event::Tick,
        Event::PassFailed,
        Event::Tick,
        Event::CrawlDone { fetched: vec![3, 21, 5] },
        Event::CrawlDone { fetched: vec![1] },
        Event::Started,
        Event::ReindexDone { storage_max: 0, fetched: vec![] },
    ];
    for e in &events {
        ix.handle(e);
        assert!(ix.last_max() >= last);
        last = ix.last_max();
    }
    assert_eq!(ix.last_max(), 21);
    assert_eq!(ix.phase(), Phase::Crawling);
}

#[test]
fn send_failure_stops_the_indexer() {
    let mut ix = reindexed(5, vec![]);
    assert_eq!(ix.handle(&Event::SendFailed), Action::Stop);
    assert_eq!(ix.phase(), Phase::Stopped);
    assert_eq!(ix.handle(&Event::Tick), Action::Idle);
    assert_eq!(ix.handle(&Event::Started), Action::Idle);
    assert_eq!(ix.handle(&Event::CrawlDone { fetched: vec![9] }), Action::Idle);
    assert_eq!(ix.last_max(), 5);
    assert_eq!(ix.phase(), Phase::Stopped);
}

#[test]
fn send_failure_during_reindex_stops_too() {
    let mut ix = BlocksIndexer::new();
    ix.handle(&Event::Started);
    assert_eq!(ix.handle(&Event::SendFailed), Action::Stop);
    assert_eq!(ix.handle(&Event::Tick), Action::Idle);
}

#[test]
fn reindex_over_complete_storage_is_idempotent() {
    let stored: Vec<u32> = (1..=10).collect();
    let filter = reindex_filter(&stored, 0, 10);
    let fetched = select_blocks(backend(1, 10), &filter);
    assert!(fetched.is_empty());
    let ix = reindexed(10, numbers(&fetched));
    assert_eq!(ix.last_max(), 10);
}

#[test]
fn failed_reindex_moves_on_to_crawling() {
    let mut ix = BlocksIndexer::new();
    ix.handle(&Event::Started);
    assert_eq!(ix.handle(&Event::PassFailed), Action::Idle);
    assert_eq!(ix.phase(), Phase::Crawling);
    assert_eq!(ix.last_max(), 0);
    assert_eq!(ix.handle(&Event::Tick), Action::Crawl { above: 0 });
}

#[test]
fn tick_before_start_does_nothing() {
    let mut ix = BlocksIndexer::new();
    assert_eq!(ix.handle(&Event::Tick), Action::Idle);
    assert_eq!(ix.phase(), Phase::Starting);
}

#[test]
fn missing_numbers_edges() {
    assert_eq!(missing_numbers(&vec![], 5, 5), Vec::<u32>::new());
    assert_eq!(missing_numbers(&vec![], 7, 3), Vec::<u32>::new());
    assert_eq!(missing_numbers(&vec![2], 0, 3), vec![1, 3]);
    assert_eq!(missing_numbers(&vec![], u32::MAX - 2, u32::MAX), vec![u32::MAX - 1, u32::MAX]);
}

#[test]
fn filters_select_in_backend_order() {
    let hs = vec![header(9), header(2), header(5)];
    let picked = select_blocks(hs, &Filter::Among(vec![5, 9]));
    assert_eq!(numbers(&picked), vec![9, 5]);
    let picked = select_blocks(backend(0, 3), &Filter::Above(3));
    assert!(picked.is_empty());
}

#[test]
fn decorate_pairs_versions() {
    let blocks = decorate(vec![header(1), header(2)], &vec![Some(3), Some(4)]).unwrap();
    assert_eq!(blocks[0].spec_version, 3);
    assert_eq!(blocks[1].spec_version, 4);
    assert_eq!(blocks[1].header.number, 2);
    assert_eq!(block_numbers(&blocks), vec![1, 2]);
}

#[test]
fn decorate_fails_without_a_version() {
    let r = decorate(vec![header(1), header(2)], &vec![Some(3), None]);
    assert_eq!(r.unwrap_err(), ArchiveError::VersionResolution);
    assert_eq!(ArchiveError::VersionResolution.describe(), "version error");
}
