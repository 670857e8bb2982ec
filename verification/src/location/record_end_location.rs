use vstd::prelude::*;

use crate::location::{
    LogFileId, LogFilePosition, RecordStartLocation, MAX_LOG_FILE_NUMBER, RECORDS_PER_FILE,
};
use crate::record::RecordId;

verus! {

/// The exclusive byte end of a record within its log file.
///
/// The position follows the record's checksum. Like [`RecordStartLocation`] this is metadata: it
/// establishes neither that the record exists nor that it is durable.
#[derive(Clone, Copy, Debug, PartialEq, Eq, Structural)]
pub struct RecordEndLocation {
    /// The record that ends here.
    pub record_id: RecordId,
    /// First byte after that record in its log file.
    pub position: LogFilePosition,
}

impl RecordEndLocation {
    pub fn new(record_id: RecordId, position: LogFilePosition) -> (end: RecordEndLocation)
        ensures
            end == (RecordEndLocation { record_id, position }),
    {
        RecordEndLocation { record_id, position }
    }

    pub fn record_id(self) -> (record_id: RecordId)
        ensures
            record_id == self.record_id,
    {
        self.record_id
    }

    pub fn position(self) -> (position: LogFilePosition)
        ensures
            position == self.position,
    {
        self.position
    }

    /// The file that contains the record.
    pub fn log_file_id(self) -> (file_id: LogFileId)
        ensures
            file_id.assigns(self.record_id),
            file_id.file_number@ <= MAX_LOG_FILE_NUMBER,
    {
        LogFileId::from_record_id(self.record_id)
    }

    /// Number of a file's records up to and with the one that ends at `end`; none without an end.
    pub open spec fn count(end: Option<RecordEndLocation>) -> int {
        match end {
            None => 0,
            Some(end) => LogFileId::count_through(end.record_id),
        }
    }

    /// Byte offset of `end` in its file; the file's beginning without an end.
    pub open spec fn offset(end: Option<RecordEndLocation>) -> int {
        match end {
            None => 0,
            Some(end) => end.position.0 as int,
        }
    }

    /// Counts a file's records up to and with the one that ends at `end`.
    pub fn count_of(end: Option<RecordEndLocation>) -> (count: u64)
        ensures
            count == RecordEndLocation::count(end),
            count <= RECORDS_PER_FILE,
            count == 0 <==> end is None,
    {
        match end {
            None => 0,
            Some(end) => LogFileId::record_count_through(end.record_id),
        }
    }

    /// The byte offset of `end` in its file, zero without an end.
    pub fn offset_of(end: Option<RecordEndLocation>) -> (offset: u64)
        ensures
            offset == RecordEndLocation::offset(end),
    {
        match end {
            None => 0,
            Some(end) => end.position.get(),
        }
    }

    /// The place where the following record starts: right here, or at byte zero of the following
    /// file when this record is the last one of its file.
    pub open spec fn following_start(self) -> RecordStartLocation {
        RecordStartLocation {
            record_id: self.record_id.plus(1),
            position: if LogFileId::count_through(self.record_id) == RECORDS_PER_FILE {
                0
            } else {
                self.position.0
            },
        }
    }

    /// Derives the following record's inclusive start. The stream's last record has no follower.
    pub fn next_record_start(self) -> (start: RecordStartLocation)
        requires
            self.record_id.has_next(),
        ensures
            start == self.following_start(),
    {
        let next = self.record_id.next();
        let position: u64 = if LogFileId::record_count_through(self.record_id) == RECORDS_PER_FILE {
            0
        } else {
            self.position.get()
        };
        RecordStartLocation::new(next, position)
    }

    /// Without an end a file has no records and no bytes; with one, it has the records up to it and
    /// the bytes before it.
    pub proof fn an_end_counts_records_and_bytes(file: LogFileId, end: Option<RecordEndLocation>)
        requires
            end matches Some(end) ==> file.assigns(end.record_id),
        ensures
            end is None ==> RecordEndLocation::count(end) == 0 && RecordEndLocation::offset(end)
                == 0,
            end matches Some(end) ==> {
                &&& RecordEndLocation::offset(Some(end)) == end.position.0
                &&& end.record_id.sequence_number.0 == file.file_number@ * 100_000
                    + RecordEndLocation::count(Some(end)) - 1
                &&& 1 <= RecordEndLocation::count(Some(end)) <= 100_000
            },
    {
    }

    /// The following record starts right at this end in the same file, or at byte zero of the
    /// directly following file.
    pub proof fn following_start_continues_or_rotates(
        self,
        file: LogFileId,
        following: LogFileId,
    )
        requires
            self.record_id.has_next(),
            file.assigns(self.record_id),
            following.assigns(self.following_start().record_id),
        ensures
            self.following_start().position == self.position.0 && following == file
                || self.following_start().position == 0 && following.follows(file),
            self.following_start().record_id.stream_id == self.record_id.stream_id,
            self.following_start().record_id.sequence_number.0 == self.record_id.sequence_number.0
                + 1,
            following == file <==> self.record_id.sequence_number.0 % 100_000 != 99_999,
    {
        LogFileId::count_and_place_are_inverse(file, self.record_id);
        LogFileId::count_and_place_are_inverse(following, self.following_start().record_id);
        following.file_number.equal_by_number(file.file_number);
    }
}

} // verus!
