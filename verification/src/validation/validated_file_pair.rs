use vstd::prelude::*;

use crate::location::{LogFileId, RecordEndLocation, RECORDS_PER_FILE};
use crate::record;

verus! {

/// A recovered log and its index.
///
/// The end refers to this file only.
#[allow(inconsistent_fields)]
#[derive(Debug)]
pub enum ValidatedFilePair<F> {
    /// Every record position of the file is occupied; the files are closed.
    Complete { end: RecordEndLocation },
    /// The file has room for more records; both files are positioned to append.
    Partial { end: Option<RecordEndLocation>, log: F, index: F },
}

/// Whether `end` is absent or ends a record of the file, at a possible position.
pub open spec fn is_file_end(file_id: LogFileId, end: Option<RecordEndLocation>) -> bool {
    &&& end matches Some(end) ==> file_id.assigns(end.record_id)
    &&& record::is_extent_of(RecordEndLocation::offset(end), RecordEndLocation::count(end))
}

/// Whether a record can follow `end` in the file.
pub open spec fn has_room(file_id: LogFileId, end: Option<RecordEndLocation>) -> bool {
    &&& RecordEndLocation::count(end) < RECORDS_PER_FILE
    &&& file_id.first_sequence() + RecordEndLocation::count(end) <= u64::MAX
}

impl<F> ValidatedFilePair<F> {
    /// The pair's last end.
    pub open spec fn spec_end(self) -> Option<RecordEndLocation> {
        match self {
            ValidatedFilePair::Complete { end } => Some(end),
            ValidatedFilePair::Partial { end, .. } => end,
        }
    }

    /// Whether this can be the outcome of recovering `file_id` behind `last_trusted`.
    pub open spec fn is_recovery_of(
        self,
        file_id: LogFileId,
        last_trusted: Option<RecordEndLocation>,
    ) -> bool {
        &&& is_file_end(file_id, self.spec_end())
        &&& RecordEndLocation::count(last_trusted) <= RecordEndLocation::count(self.spec_end())
        &&& RecordEndLocation::offset(last_trusted) <= RecordEndLocation::offset(self.spec_end())
        &&& match self {
            ValidatedFilePair::Complete { end } => LogFileId::count_through(end.record_id)
                == RECORDS_PER_FILE,
            ValidatedFilePair::Partial { end, .. } => has_room(file_id, end),
        }
    }
}

} // verus!
