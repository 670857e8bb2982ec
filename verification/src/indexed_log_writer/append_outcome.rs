use vstd::prelude::*;

use crate::location::RecordEndLocation;

verus! {

/// One accepted record.
///
/// Acceptance means that the record and its index entry are buffered; it is neither a flush nor a
/// durability acknowledgement.
#[derive(Clone, Copy, Debug, PartialEq, Eq, Structural)]
pub struct AppendOutcome {
    end: RecordEndLocation,
    file_full: bool,
}

impl AppendOutcome {
    pub closed spec fn spec_end(self) -> RecordEndLocation {
        self.end
    }

    pub closed spec fn spec_file_full(self) -> bool {
        self.file_full
    }

    pub(crate) fn new(end: RecordEndLocation, file_full: bool) -> (outcome: AppendOutcome)
        ensures
            outcome.spec_end() == end,
            outcome.spec_file_full() == file_full,
    {
        AppendOutcome { end, file_full }
    }

    /// The record and its exclusive end in the log file.
    pub fn end(self) -> (end: RecordEndLocation)
        ensures
            end == self.spec_end(),
    {
        self.end
    }

    /// Whether the record filled the file.
    pub fn file_full(self) -> (file_full: bool)
        ensures
            file_full == self.spec_file_full(),
    {
        self.file_full
    }
}

} // verus!
