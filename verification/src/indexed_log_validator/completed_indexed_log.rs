use vstd::prelude::*;

use crate::location::{LogFileId, RecordEndLocation, MAX_LOG_FILE_NUMBER};

verus! {

/// A full, valid and durable log and index, both of them closed.
///
/// Only the validator's handover constructs this.
#[derive(Clone, Copy, Debug, PartialEq, Eq, Structural)]
pub struct CompletedIndexedLog {
    end: RecordEndLocation,
}

impl CompletedIndexedLog {
    pub closed spec fn spec_end(self) -> RecordEndLocation {
        self.end
    }

    pub(crate) fn new(end: RecordEndLocation) -> (completed: CompletedIndexedLog)
        ensures
            completed.spec_end() == end,
    {
        CompletedIndexedLog { end }
    }

    /// The file's last record and its exclusive end.
    pub fn end(self) -> (end: RecordEndLocation)
        ensures
            end == self.spec_end(),
    {
        self.end
    }

    /// The completed file.
    pub fn file_id(&self) -> (file_id: LogFileId)
        ensures
            file_id.assigns(self.spec_end().record_id),
            file_id.file_number@ <= MAX_LOG_FILE_NUMBER,
    {
        self.end.log_file_id()
    }
}

} // verus!
