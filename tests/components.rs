use archive_indexer::aggregator::Aggregator;
use archive_indexer::block::{BatchBlock, Block, BlockHeader};
use archive_indexer::error::ArchiveError;
use archive_indexer::persist::{
    block_row, inherent_rows, plan_write, time_update, time_update_from, time_write_outcome,
    Data, ExtrinsicCall, TimeWrite, Write,
};
use archive_indexer::pool::{ActorPool, Dispatch};
use archive_indexer::version_cache::RuntimeVersionCache;
use parity_scale_codec::Encode;

fn header(n: u32) -> BlockHeader {
    BlockHeader {
        hash: vec![0xde, 0xad, n as u8],
        parent_hash: vec![0xde, 0xad, n.wrapping_sub(1) as u8],
        number: n,
        state_root: vec![7, 7],
        extrinsics_root: vec![8, 8],
    }
}

fn call(m: &str, c: &str, p: &[u8]) -> ExtrinsicCall {
    ExtrinsicCall { module: m.to_string(), call: c.to_string(), parameters: p.to_vec() }
}

#[test]
fn cache_keeps_the_first_resolution() {
    let mut cache = RuntimeVersionCache::new();
    let h = vec![1, 2, 3];
    assert_eq!(cache.get(&h), None);
    assert_eq!(cache.resolve(h.clone(), 7), 7);
    assert_eq!(cache.resolve(h.clone(), 9), 7);
    assert_eq!(cache.get(&h), Some(7));
    assert_eq!(cache.get(&vec![1, 2]), None);
    assert_eq!(cache.resolve(vec![1, 2], 9), 9);
    assert_eq!(cache.get(&h), Some(7));
}

#[test]
fn pool_queues_the_write_beyond_its_size() {
    let mut pool = ActorPool::new(2);
    assert_eq!(pool.size(), 2);
    let a = pool.submit(10);
    let b = pool.submit(11);
    assert!(matches!(a, Dispatch::Assigned { .. }));
    assert!(matches!(b, Dispatch::Assigned { .. }));
    assert_ne!(a, b);
    assert_eq!(pool.submit(12), Dispatch::Queued);
    assert_eq!(pool.submit(13), Dispatch::Queued);
    assert_eq!(pool.complete(0), Some(12));
    assert_eq!(pool.complete(1), Some(13));
    assert_eq!(pool.complete(0), None);
    assert_eq!(pool.submit(14), Dispatch::Assigned { worker: 0 });
}

#[test]
fn pool_takes_writers_in_turn() {
    let mut pool = ActorPool::new(3);
    assert_eq!(pool.submit(1), Dispatch::Assigned { worker: 0 });
    assert_eq!(pool.complete(0), None);
    assert_eq!(pool.submit(2), Dispatch::Assigned { worker: 1 });
    assert_eq!(pool.submit(3), Dispatch::Assigned { worker: 2 });
    assert_eq!(pool.submit(4), Dispatch::Assigned { worker: 0 });
}

#[test]
fn aggregator_forwards_in_arrival_order() {
    let mut ag = Aggregator::new();
    ag.handle(BatchBlock::new(vec![Block::new(header(1), 1), Block::new(header(2), 1)]));
    ag.handle(BatchBlock::new(vec![]));
    ag.handle(BatchBlock::new(vec![Block::new(header(3), 2)]));
    assert_eq!(ag.pending(), 3);
    let out = ag.drain();
    let ns: Vec<u32> = out.iter().map(|b| b.header.number).collect();
    assert_eq!(ns, vec![1, 2, 3]);
    assert_eq!(ag.pending(), 0);
    assert!(ag.drain().is_empty());
}

#[test]
fn block_row_copies_the_header() {
    let h = header(42);
    let row = block_row(&h);
    assert_eq!(row.hash, h.hash);
    assert_eq!(row.parent_hash, h.parent_hash);
    assert_eq!(row.block, 42);
    assert_eq!(row.state_root, vec![7, 7]);
    assert_eq!(row.extrinsics_root, vec![8, 8]);
    assert_eq!(row.time, None);
}

#[test]
fn inherent_rows_are_numbered_in_block_order() {
    let h = header(5);
    let rows = inherent_rows(&h, vec![call("Timestamp", "set", &[1]), call("Balances", "transfer", &[])])
        .unwrap();
    assert_eq!(rows.len(), 2);
    assert_eq!(rows[0].in_index, 0);
    assert_eq!(rows[1].in_index, 1);
    assert_eq!(rows[0].module, "Timestamp");
    assert_eq!(rows[1].call, "transfer");
    assert_eq!(rows[0].parameters, Some(vec![1]));
    assert_eq!(rows[1].hash, h.hash);
    assert_eq!(rows[1].block, 5);
    assert!(rows[1].success);
}

#[test]
fn time_update_decodes_milliseconds() {
    let data = 1_431_648_000_123i64.encode();
    let t = time_update(vec![9], &data).unwrap();
    assert_eq!(t.millis, 1_431_648_000_123);
    assert_eq!(t.hash, vec![9]);
    let t = time_update(vec![9], &vec![0xff; 8]).unwrap();
    assert_eq!(t.millis, -1);
    // trailing bytes are left unread
    let t = time_update(vec![9], &vec![1, 0, 0, 0, 0, 0, 0, 0, 5]).unwrap();
    assert_eq!(t.millis, 1);
}

#[test]
fn time_update_rejects_short_data() {
    assert_eq!(time_update(vec![9], &vec![1, 2, 3]).unwrap_err(), ArchiveError::Decode);
    assert_eq!(time_update(vec![9], &vec![]).unwrap_err(), ArchiveError::Decode);
}

#[test]
fn time_update_rejects_unrepresentable_instants() {
    let data = i64::MAX.encode();
    assert_eq!(time_update(vec![9], &data).unwrap_err(), ArchiveError::TimeOutOfRange);
    assert_eq!(time_update_from(vec![1], Some(5), false).unwrap_err(), ArchiveError::TimeOutOfRange);
    assert_eq!(time_update_from(vec![1], None, true).unwrap_err(), ArchiveError::Decode);
    assert_eq!(time_update_from(vec![1], Some(5), true).unwrap().millis, 5);
}

#[test]
fn missing_row_means_retry_later() {
    assert_eq!(time_write_outcome(0), TimeWrite::RetryLater);
    assert_eq!(time_write_outcome(1), TimeWrite::Applied);
}

#[test]
fn plan_write_for_each_kind_of_data() {
    let w = plan_write(Data::Block { header: header(3), calls: vec![call("A", "b", &[])] }).unwrap();
    match w {
        Write::Block { row, inherents } => {
            assert_eq!(row.block, 3);
            assert_eq!(inherents.len(), 1);
        }
        Write::Time(_) => panic!("expected a block write"),
    }
    let w = plan_write(Data::Storage { data: 77i64.encode(), hash: vec![4] }).unwrap();
    match w {
        Write::Time(t) => {
            assert_eq!(t.millis, 77);
            assert_eq!(t.hash, vec![4]);
        }
        Write::Block { .. } => panic!("expected a time write"),
    }
    let e = plan_write(Data::Storage { data: vec![0], hash: vec![4] }).unwrap_err();
    assert_eq!(e, ArchiveError::Decode);
}
