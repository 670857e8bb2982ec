//! The certified prefix of a stream.
use vstd::prelude::*;

use crate::location::RecordEndLocation;

verus! {

/// The end of one stream's checkpointed records.
///
/// A published checkpoint certifies that all records up to its end and their index entries are
/// valid and durable; recovery trusts them. The value itself establishes none of that. No
/// checkpoint is `None`: sequence zero is a record like any other.
#[derive(Clone, Copy, Debug, PartialEq, Eq, Structural)]
pub struct StreamCheckpoint {
    /// The last covered record and its exclusive end in its log file.
    pub end: RecordEndLocation,
}

impl StreamCheckpoint {
    pub fn new(end: RecordEndLocation) -> (checkpoint: StreamCheckpoint)
        ensures
            checkpoint == (StreamCheckpoint { end }),
    {
        StreamCheckpoint { end }
    }

    pub fn end(self) -> (end: RecordEndLocation)
        ensures
            end == self.end,
    {
        self.end
    }
}

} // verus!
