use vstd::prelude::*;

use crate::location::{LogFileId, LogFilePosition, RecordEndLocation, MAX_LOG_FILE_NUMBER};
use crate::record::{RecordId, RecordLength};

verus! {

/// The inclusive byte start of a record within its log file.
///
/// The first record of a file starts at zero; positions never carry over from the preceding file.
/// The value stores what a resolver found and establishes nothing about storage.
#[derive(Clone, Copy, Debug, PartialEq, Eq, Structural)]
pub struct RecordStartLocation {
    /// The record whose first encoded byte is here.
    pub record_id: RecordId,
    /// Byte offset from the beginning of that record's log file.
    pub position: u64,
}

impl RecordStartLocation {
    pub fn new(record_id: RecordId, position: u64) -> (start: RecordStartLocation)
        ensures
            start == (RecordStartLocation { record_id, position }),
    {
        RecordStartLocation { record_id, position }
    }

    pub fn record_id(self) -> (record_id: RecordId)
        ensures
            record_id == self.record_id,
    {
        self.record_id
    }

    pub fn position(self) -> (position: u64)
        ensures
            position == self.position,
    {
        self.position
    }

    /// The file that contains the record.
    pub fn log_file_id(self) -> (file_id: LogFileId)
        ensures
            file_id.assigns(self.record_id),
            file_id.file_number@ <= MAX_LOG_FILE_NUMBER,
    {
        LogFileId::from_record_id(self.record_id)
    }

    /// The record's exclusive end, given its complete encoded length.
    pub open spec fn end(self, record_length: RecordLength) -> RecordEndLocation {
        RecordEndLocation {
            record_id: self.record_id,
            position: LogFilePosition((self.position + record_length@) as u64),
        }
    }

    /// Derives the record's exclusive end from its complete encoded length.
    pub fn to_end(self, record_length: RecordLength) -> (end: RecordEndLocation)
        requires
            self.position + record_length@ <= u64::MAX,
        ensures
            end == self.end(record_length),
            end.record_id == self.record_id,
            end.position.0 == self.position + record_length@,
    {
        RecordEndLocation::new(
            self.record_id,
            LogFilePosition::new(self.position + record_length.get()),
        )
    }

    /// Derives the following record's inclusive start from this record's encoded length.
    pub fn to_next(self, record_length: RecordLength) -> (next: RecordStartLocation)
        requires
            self.position + record_length@ <= u64::MAX,
            self.record_id.has_next(),
        ensures
            next == self.end(record_length).following_start(),
    {
        self.to_end(record_length).next_record_start()
    }
}

} // verus!
