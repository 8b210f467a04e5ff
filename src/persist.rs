//! What a storage writer persists: the block row, the rows derived from its
//! extrinsics, and the later update of a block's wall-clock time.
use vstd::prelude::*;
use crate::block::BlockHeader;
use crate::error::ArchiveError;
use parity_scale_codec::Decode;

verus! {

/// The row of a block, keyed by its hash.
#[derive(Clone, Debug)]
pub struct BlockRow {
    pub parent_hash: Vec<u8>,
    pub hash: Vec<u8>,
    pub block: i64,
    pub state_root: Vec<u8>,
    pub extrinsics_root: Vec<u8>,
    /// Milliseconds since the Unix epoch, once known.
    pub time: Option<i64>,
}

/// An extrinsic's call as decoded from the block body.
#[derive(Clone, Debug)]
pub struct ExtrinsicCall {
    pub module: String,
    pub call: String,
    pub parameters: Vec<u8>,
}

/// The row of one extrinsic, referencing its block by hash and number.
#[derive(Clone, Debug)]
pub struct InherentRow {
    pub hash: Vec<u8>,
    pub block: i64,
    pub module: String,
    pub call: String,
    pub parameters: Option<Vec<u8>>,
    pub success: bool,
    pub in_index: i32,
}

fn copy_bytes(b: &Vec<u8>) -> (r: Vec<u8>)
    ensures
        r@ == b@,
{
    let r = b.clone();
    assert(r@ =~= b@);
    r
}

/// `r` is the row of `header`, its time not yet known.
pub open spec fn is_row_of(r: BlockRow, header: BlockHeader) -> bool {
    &&& r.parent_hash@ == header.parent_hash@
    &&& r.hash@ == header.hash@
    &&& r.block == header.number as i64
    &&& r.state_root@ == header.state_root@
    &&& r.extrinsics_root@ == header.extrinsics_root@
    &&& r.time.is_none()
}

/// The block row for a header, its time not yet known.
pub fn block_row(header: &BlockHeader) -> (r: BlockRow)
    ensures
        is_row_of(r, *header),
{
    BlockRow {
        parent_hash: copy_bytes(&header.parent_hash),
        hash: copy_bytes(&header.hash),
        block: header.number as i64,
        state_root: copy_bytes(&header.state_root),
        extrinsics_root: copy_bytes(&header.extrinsics_root),
        time: None,
    }
}

/// `rows` are the rows of the calls `calls` of the block `header`: one per
/// call, in order, each numbered by its position.
pub open spec fn are_inherent_rows_of(rows: Seq<InherentRow>, header: BlockHeader, calls: Seq<ExtrinsicCall>) -> bool {
    &&& rows.len() == calls.len()
    &&& forall|i: int|
        0 <= i < rows.len() ==> {
            &&& (#[trigger] rows[i]).hash@ == header.hash@
            &&& rows[i].block == header.number as i64
            &&& rows[i].module@ == calls[i].module@
            &&& rows[i].call@ == calls[i].call@
            &&& rows[i].parameters.is_some()
            &&& rows[i].parameters.unwrap()@ == calls[i].parameters@
            &&& rows[i].success
            &&& rows[i].in_index == i
        }
}

/// The rows derived from a block's extrinsics, one per call in block order,
/// each with its position. Fails with `TooManyExtrinsics`, writing nothing,
/// when a position does not fit the column.
pub fn inherent_rows(header: &BlockHeader, calls: Vec<ExtrinsicCall>) -> (r: Result<
    Vec<InherentRow>,
    ArchiveError,
>)
    ensures
        r.is_ok() <==> calls@.len() <= i32::MAX as int + 1,
        r.is_err() ==> r == Err::<Vec<InherentRow>, ArchiveError>(ArchiveError::TooManyExtrinsics),
        r.is_ok() ==> are_inherent_rows_of(r.unwrap()@, *header, calls@),
{
    if calls.len() > i32::MAX as usize + 1 {
        return Err(ArchiveError::TooManyExtrinsics);
    }
    let ghost all = calls@;
    let mut rest = calls;
    let mut rows: Vec<InherentRow> = Vec::new();
    let mut i: usize = 0;
    while rest.len() > 0
        invariant
            i == rows@.len(),
            i + rest@.len() == all.len(),
            all.len() <= i32::MAX as int + 1,
            rest@ == all.subrange(i as int, all.len() as int),
            forall|k: int|
                0 <= k < i ==> {
                    &&& (#[trigger] rows@[k]).hash@ == header.hash@
                    &&& rows@[k].block == header.number as i64
                    &&& rows@[k].module@ == all[k].module@
                    &&& rows@[k].call@ == all[k].call@
                    &&& rows@[k].parameters.is_some()
                    &&& rows@[k].parameters.unwrap()@ == all[k].parameters@
                    &&& rows@[k].success
                    &&& rows@[k].in_index == k
                },
        decreases rest.len(),
    {
        let c = rest.remove(0);
        assert(c == all[i as int]);
        rows.push(
            InherentRow {
                hash: copy_bytes(&header.hash),
                block: header.number as i64,
                module: c.module,
                call: c.call,
                parameters: Some(c.parameters),
                success: true,
                in_index: i as i32,
            },
        );
        i = i + 1;
    }
    assert(all.subrange(0, all.len() as int) == all);
    assert(are_inherent_rows_of(rows@, *header, all));
    Ok(rows)
}

/// The unsigned integer whose little-endian bytes are `s`.
pub open spec fn le_uint(s: Seq<u8>) -> nat
    decreases s.len(),
{
    if s.len() == 0 {
        0
    } else {
        s[0] as nat + 256 * le_uint(s.drop_first())
    }
}

/// The two's-complement signed integer whose eight little-endian bytes begin `s`.
pub open spec fn le_i64(s: Seq<u8>) -> int {
    let u = le_uint(s.take(8)) as int;
    if u >= 0x8000_0000_0000_0000 {
        u - 0x1_0000_0000_0000_0000
    } else {
        u
    }
}

/// Relies on parity_scale_codec's `Decode` for `i64` read from a byte slice:
/// it fails when fewer than eight bytes remain, and otherwise reads the first
/// eight as a little-endian integer (`i64::from_le_bytes`).
#[verifier::external_body]
fn decode_i64(data: &Vec<u8>) -> (r: Option<i64>)
    ensures
        r.is_some() <==> data@.len() >= 8,
        r.is_some() ==> r.unwrap() as int == le_i64(data@),
{
    let mut input: &[u8] = data.as_slice();
    i64::decode(&mut input).ok()
}

/// Whether chrono can represent the instant this many milliseconds after the
/// Unix epoch, in UTC.
pub uninterp spec fn utc_millis_representable(ms: i64) -> bool;

/// Relies on chrono's `DateTime::<Utc>::from_timestamp_millis`: it returns
/// `None` exactly for millisecond counts out of chrono's range.
#[verifier::external_body]
fn millis_representable(ms: i64) -> (r: bool)
    ensures
        r == utc_millis_representable(ms),
{
    chrono::DateTime::<chrono::Utc>::from_timestamp_millis(ms).is_some()
}

/// The update of a block's time, keyed by the block's hash.
#[derive(Clone, Debug)]
pub struct TimeUpdate {
    pub hash: Vec<u8>,
    /// Milliseconds since the Unix epoch.
    pub millis: i64,
}

/// The time update for the block `hash`, from the decoded timestamp (if the
/// storage bytes decoded) and whether that instant is representable.
pub fn time_update_from(hash: Vec<u8>, decoded: Option<i64>, representable: bool) -> (r: Result<
    TimeUpdate,
    ArchiveError,
>)
    ensures
        decoded.is_none() ==> r == Err::<TimeUpdate, ArchiveError>(ArchiveError::Decode),
        decoded.is_some() && !representable ==> r == Err::<TimeUpdate, ArchiveError>(
            ArchiveError::TimeOutOfRange,
        ),
        decoded.is_some() && representable ==> r.is_ok() && r.unwrap().hash@ == hash@
            && r.unwrap().millis == decoded.unwrap(),
{
    match decoded {
        None => Err(ArchiveError::Decode),
        Some(ms) => {
            if representable {
                Ok(TimeUpdate { hash, millis: ms })
            } else {
                Err(ArchiveError::TimeOutOfRange)
            }
        },
    }
}

/// The time update for the block `hash` from the chain's timestamp storage
/// value `data` (a SCALE-encoded millisecond count).
pub fn time_update(hash: Vec<u8>, data: &Vec<u8>) -> (r: Result<TimeUpdate, ArchiveError>)
    ensures
        data@.len() < 8 ==> r == Err::<TimeUpdate, ArchiveError>(ArchiveError::Decode),
        data@.len() >= 8 ==> {
            let ms = le_i64(data@) as i64;
            &&& !utc_millis_representable(ms) ==> r == Err::<TimeUpdate, ArchiveError>(
                ArchiveError::TimeOutOfRange,
            )
            &&& utc_millis_representable(ms) ==> r.is_ok() && r.unwrap().hash@ == hash@
                && r.unwrap().millis as int == le_i64(data@)
        },
{
    let decoded = decode_i64(data);
    let representable = match decoded {
        Some(ms) => millis_representable(ms),
        None => false,
    };
    time_update_from(hash, decoded, representable)
}

/// A piece of chain data to persist.
#[derive(Clone, Debug)]
pub enum Data {
    /// A block with the decoded calls of its extrinsics.
    Block { header: BlockHeader, calls: Vec<ExtrinsicCall> },
    /// The timestamp storage value read at the block `hash`.
    Storage { data: Vec<u8>, hash: Vec<u8> },
}

/// The statements a writer is to run for one piece of data.
#[derive(Clone, Debug)]
pub enum Write {
    /// Insert the block row, then the rows derived from its extrinsics.
    Block { row: BlockRow, inherents: Vec<InherentRow> },
    /// Set the time of the stored block row.
    Time(TimeUpdate),
}

/// What to write for `data`; a failure leaves the whole unit unwritten.
pub fn plan_write(data: Data) -> (r: Result<Write, ArchiveError>)
    ensures
        match data {
            Data::Block { header, calls } => {
                &&& r.is_ok() <==> calls@.len() <= i32::MAX as int + 1
                &&& r.is_err() ==> r == Err::<Write, ArchiveError>(ArchiveError::TooManyExtrinsics)
                &&& r.is_ok() ==> (r.unwrap() matches Write::Block { row, inherents } && is_row_of(
                    row,
                    header,
                ) && are_inherent_rows_of(inherents@, header, calls@))
            },
            Data::Storage { data, hash } => {
                &&& data@.len() < 8 ==> r == Err::<Write, ArchiveError>(ArchiveError::Decode)
                &&& data@.len() >= 8 && !utc_millis_representable(le_i64(data@) as i64) ==> r
                    == Err::<Write, ArchiveError>(ArchiveError::TimeOutOfRange)
                &&& data@.len() >= 8 && utc_millis_representable(le_i64(data@) as i64) ==> (r
                    matches Ok(Write::Time(t)) && t.hash@ == hash@ && t.millis as int == le_i64(
                    data@,
                ))
            },
        },
{
    match data {
        Data::Block { header, calls } => {
            let row = block_row(&header);
            match inherent_rows(&header, calls) {
                Ok(inherents) => Ok(Write::Block { row, inherents }),
                Err(e) => Err(e),
            }
        },
        Data::Storage { data, hash } => {
            match time_update(hash, &data) {
                Ok(t) => Ok(Write::Time(t)),
                Err(e) => Err(e),
            }
        },
    }
}

/// What became of a time update.
#[derive(Clone, Copy, Debug, PartialEq, Eq, Structural)]
pub enum TimeWrite {
    /// The block row was updated.
    Applied,
    /// The block row is not stored yet: nothing changed, try again later.
    RetryLater,
}

/// Judges a time update by the number of rows it touched.
pub fn time_write_outcome(rows_affected: usize) -> (r: TimeWrite)
    ensures
        r == (if rows_affected == 0 { TimeWrite::RetryLater } else { TimeWrite::Applied }),
{
    if rows_affected == 0 {
        TimeWrite::RetryLater
    } else {
        TimeWrite::Applied
    }
}

} // verus!
