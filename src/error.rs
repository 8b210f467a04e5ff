//! The failures an indexing pass or a write can meet.
use vstd::prelude::*;

verus! {

#[derive(Clone, Copy, Debug, PartialEq, Eq, Structural)]
pub enum ArchiveError {
    /// Iterating or looking up the chain backend failed.
    Backend,
    /// No protocol version could be found for a block.
    VersionResolution,
    /// The storage driver or a statement failed.
    Storage,
    /// A downstream actor could not be reached.
    Dispatch,
    /// Stored bytes did not decode to the expected value.
    Decode,
    /// A block holds more extrinsics than a row position can number.
    TooManyExtrinsics,
    /// A timestamp lies outside the range of representable instants.
    TimeOutOfRange,
}

impl ArchiveError {
    /// A short description of the failure.
    pub fn describe(&self) -> (r: &'static str) {
        match self {
            ArchiveError::Backend => "chain backend failure",
            ArchiveError::VersionResolution => "version error",
            ArchiveError::Storage => "storage failure",
            ArchiveError::Dispatch => "downstream actor unreachable",
            ArchiveError::Decode => "decoding failed",
            ArchiveError::TooManyExtrinsics => "too many extrinsics in one block",
            ArchiveError::TimeOutOfRange => "timestamp out of range",
        }
    }
}

} // verus!
