use vstd::prelude::*;

use crate::location::{
    LogFileIdRangeError, LogFileNumber, LogFileRecordIndexError, MAX_LOG_FILE_NUMBER,
    RECORDS_PER_FILE,
};
use crate::record::{RecordId, SequenceNumber, StreamId};
use crate::text;

verus! {

/// Identifies one stream's log file by its zero-based file number.
///
/// A record belongs to file number `sequence_number / RECORDS_PER_FILE`, whatever the records'
/// byte lengths are. The identity describes assigned positions: it establishes neither that the
/// file exists nor that it is complete.
#[derive(Clone, Copy, Debug, PartialEq, Eq, Hash, Structural)]
pub struct LogFileId {
    /// The stream whose records belong to the file.
    pub stream_id: StreamId,
    /// The file's number within the stream.
    pub file_number: LogFileNumber,
}

impl LogFileId {
    pub fn new(stream_id: StreamId, file_number: LogFileNumber) -> (file_id: LogFileId)
        ensures
            file_id == (LogFileId { stream_id, file_number }),
    {
        LogFileId { stream_id, file_number }
    }

    pub fn stream_id(self) -> (stream_id: StreamId)
        ensures
            stream_id == self.stream_id,
    {
        self.stream_id
    }

    pub fn file_number(self) -> (file_number: LogFileNumber)
        ensures
            file_number == self.file_number,
    {
        self.file_number
    }

    /// The stream's file zero.
    pub fn first(stream_id: StreamId) -> (file_id: LogFileId)
        ensures
            file_id.stream_id == stream_id,
            file_id.file_number@ == 0,
    {
        LogFileId::new(stream_id, LogFileNumber::min())
    }

    /// Whether `record_id` is one of the records assigned to this file.
    pub open spec fn assigns(self, record_id: RecordId) -> bool {
        &&& self.stream_id == record_id.stream_id
        &&& self.file_number@ == record_id.sequence_number.0 / RECORDS_PER_FILE
    }

    /// Whether this file precedes another one of its stream, or is that one.
    pub open spec fn precedes_or_is(self, other: LogFileId) -> bool {
        &&& self.stream_id == other.stream_id
        &&& self.file_number@ <= other.file_number@
    }

    /// The file that a record is assigned to.
    pub fn from_record_id(record_id: RecordId) -> (file_id: LogFileId)
        ensures
            file_id.assigns(record_id),
            file_id.file_number@ <= MAX_LOG_FILE_NUMBER,
    {
        LogFileId::new(
            record_id.stream_id(),
            LogFileNumber::from_sequence_number(record_id.sequence_number()),
        )
    }

    /// Number of record positions from the beginning of the record's file through the record
    /// itself.
    pub open spec fn count_through(record_id: RecordId) -> int {
        record_id.sequence_number.0 % RECORDS_PER_FILE + 1
    }

    /// Counts the positions of the record's own file up to and with the record.
    pub fn record_count_through(record_id: RecordId) -> (count: u64)
        ensures
            count == LogFileId::count_through(record_id),
            1 <= count <= RECORDS_PER_FILE,
    {
        record_id.sequence_number().get() % RECORDS_PER_FILE + 1
    }

    /// Sequence number of the file's first record.
    pub open spec fn first_sequence(self) -> int {
        self.file_number@ * RECORDS_PER_FILE
    }

    /// Sequence number of the file's last record: the terminal file's range ends with the
    /// sequence numbers themselves.
    pub open spec fn last_sequence(self) -> int {
        if self.first_sequence() + RECORDS_PER_FILE - 1 <= u64::MAX {
            self.first_sequence() + RECORDS_PER_FILE - 1
        } else {
            u64::MAX as int
        }
    }

    /// The record at a zero-based place counted from the file's first record.
    pub open spec fn record_at(self, index: int) -> RecordId {
        RecordId {
            stream_id: self.stream_id,
            sequence_number: SequenceNumber((self.first_sequence() + index) as u64),
        }
    }

    /// The record at a zero-based place in this file.
    ///
    /// Every file numbers its places up to `RECORDS_PER_FILE - 1`; in the terminal file the places
    /// beyond the last sequence number have no record.
    pub fn record_id_at(self, index: u64) -> (result: Result<RecordId, LogFileRecordIndexError>)
        requires
            index < RECORDS_PER_FILE ==> self.first_sequence() + index <= u64::MAX,
        ensures
            match result {
                Ok(record_id) => index < RECORDS_PER_FILE && record_id == self.record_at(
                    index as int,
                ),
                Err(error) => index >= RECORDS_PER_FILE && error == (LogFileRecordIndexError {
                    file_id: self,
                    index,
                    maximum_index: (RECORDS_PER_FILE - 1) as u64,
                }),
            },
    {
        let maximum_index: u64 = RECORDS_PER_FILE - 1;
        if index > maximum_index {
            return Err(LogFileRecordIndexError { file_id: self, index, maximum_index });
        }
        let first: u64 = self.first_record_id().sequence_number().get();
        Ok(RecordId::new(self.stream_id, SequenceNumber::new(first + index)))
    }

    /// The first record assigned to this file.
    pub fn first_record_id(self) -> (record_id: RecordId)
        ensures
            record_id == self.record_at(0),
            record_id.sequence_number.0 == self.first_sequence(),
    {
        let number: u64 = self.file_number.get();
        RecordId::new(self.stream_id, SequenceNumber::new(number * RECORDS_PER_FILE))
    }

    /// The last record assigned to this file.
    pub fn last_record_id(self) -> (record_id: RecordId)
        ensures
            record_id.stream_id == self.stream_id,
            record_id.sequence_number.0 == self.last_sequence(),
    {
        let first: u64 = self.first_record_id().sequence_number().get();
        let last: u64 = first.saturating_add(RECORDS_PER_FILE - 1);
        RecordId::new(self.stream_id, SequenceNumber::new(last))
    }

    /// Whether a file follows this one in the stream.
    pub open spec fn has_next(self) -> bool {
        self.file_number@ < MAX_LOG_FILE_NUMBER
    }

    /// Whether this file directly follows `other` in its stream.
    pub open spec fn follows(self, other: LogFileId) -> bool {
        &&& self.stream_id == other.stream_id
        &&& self.file_number@ == other.file_number@ + 1
    }

    /// The following file of the stream. The terminal file has none.
    pub fn next(self) -> (next: LogFileId)
        requires
            self.has_next(),
        ensures
            next.follows(self),
    {
        LogFileId::new(self.stream_id, self.file_number.next())
    }

    /// Enumerates this file through `last`, both of them counted, without collecting them.
    pub fn iter_to(self, last: LogFileId) -> (result: Result<LogFileIds, LogFileIdRangeError>)
        ensures
            match result {
                Ok(ids) => {
                    &&& self.precedes_or_is(last)
                    &&& ids.wf()
                    &&& ids@.len() == last.file_number@ - self.file_number@ + 1
                    &&& forall|i: int|
                        0 <= i < ids@.len() ==> {
                            &&& (#[trigger] ids@[i]).0 == self.stream_id
                            &&& ids@[i].1 == self.file_number@ + i
                        }
                },
                Err(LogFileIdRangeError::DifferentStreams { first, last: end }) => {
                    &&& self.stream_id != last.stream_id
                    &&& first == self
                    &&& end == last
                },
                Err(LogFileIdRangeError::ReversedFiles { first, last: end }) => {
                    &&& self.stream_id == last.stream_id
                    &&& self.file_number@ > last.file_number@
                    &&& first == self
                    &&& end == last
                },
            },
    {
        if self.stream_id != last.stream_id {
            return Err(LogFileIdRangeError::DifferentStreams { first: self, last });
        }
        if self.file_number.get() > last.file_number.get() {
            return Err(LogFileIdRangeError::ReversedFiles { first: self, last });
        }
        Ok(LogFileIds { next: Some(self), last })
    }

    /// No record is assigned to two files.
    pub proof fn a_record_has_one_file(self, other: LogFileId, record_id: RecordId)
        requires
            self.assigns(record_id),
            other.assigns(record_id),
        ensures
            self == other,
    {
        self.file_number.equal_by_number(other.file_number);
    }

    /// A file's records are those of its stream from its first through its last sequence number.
    pub proof fn a_file_is_a_sequence_range(self, record_id: RecordId)
        requires
            self.file_number@ <= MAX_LOG_FILE_NUMBER,
        ensures
            self.assigns(record_id) <==> {
                &&& record_id.stream_id == self.stream_id
                &&& self.first_sequence() <= record_id.sequence_number.0 <= self.last_sequence()
            },
    {
    }

    /// The ranges of directly following files are adjacent: no sequence number lies between them.
    pub proof fn following_files_are_adjacent(self, next: LogFileId)
        requires
            self.has_next(),
            next.follows(self),
        ensures
            next.first_sequence() == self.last_sequence() + 1,
            self.last_sequence() == self.first_sequence() + RECORDS_PER_FILE - 1,
    {
    }

    /// A file holds fewer than [`RECORDS_PER_FILE`] records if and only if no file follows it.
    pub proof fn only_the_terminal_file_is_short(self)
        requires
            self.file_number@ <= MAX_LOG_FILE_NUMBER,
        ensures
            self.last_sequence() - self.first_sequence() + 1 == RECORDS_PER_FILE
                <==> self.has_next(),
            self.first_sequence() <= self.last_sequence() <= u64::MAX,
    {
    }

    /// The inclusive count through a record is one more than its place in its file.
    pub proof fn count_and_place_are_inverse(file: LogFileId, record_id: RecordId)
        requires
            file.assigns(record_id),
        ensures
            file.record_at(LogFileId::count_through(record_id) - 1) == record_id,
            record_id.sequence_number.0 == file.first_sequence() + LogFileId::count_through(
                record_id,
            ) - 1,
    {
    }

    /// A file's records are a hundred thousand consecutive ones of its stream: the record at a place
    /// lies that many sequence numbers behind the first one, and belongs to the file exactly when
    /// the place is one of the first hundred thousand.
    pub proof fn a_file_has_a_hundred_thousand_places(self, record_id: RecordId)
        requires
            record_id.stream_id == self.stream_id,
        ensures
            ({
                let place = record_id.sequence_number.0 - self.file_number@ * 100_000;
                &&& self.first_sequence() == self.file_number@ * 100_000
                &&& self.assigns(record_id) <==> 0 <= place < 100_000
                &&& self.assigns(record_id) ==> {
                    &&& self.record_at(place) == record_id
                    &&& LogFileId::count_through(record_id) == place + 1
                }
            }),
    {
    }

    /// A place of the file that has a record has exactly one, assigned to this file and counted
    /// one past the place.
    pub proof fn a_place_has_its_record(self, index: int)
        requires
            0 <= index < RECORDS_PER_FILE,
            self.first_sequence() + index <= u64::MAX,
        ensures
            self.assigns(self.record_at(index)),
            LogFileId::count_through(self.record_at(index)) == index + 1,
    {
    }

    /// The identity as diagnostic messages show it.
    pub open spec fn shown(self) -> Seq<char> {
        "LogFileId { stream_id: StreamId("@ + text::decimal(self.stream_id@ as nat)
            + "), file_number: LogFileNumber("@ + text::decimal(self.file_number@ as nat) + ") }"@
    }

    /// Appends the identity as diagnostic messages show it.
    pub fn push_shown(self, message: &mut String)
        ensures
            final(message)@ == old(message)@ + self.shown(),
    {
        message.append("LogFileId { stream_id: StreamId(");
        text::push_decimal(message, self.stream_id.get() as u64);
        message.append("), file_number: LogFileNumber(");
        text::push_decimal(message, self.file_number.get());
        message.append(") }");
        assert(message@ =~= old(message)@ + self.shown());
    }
}

/// The files from one file through a later one of the same stream, handed out in order.
#[derive(Clone, Copy, Debug)]
pub struct LogFileIds {
    next: Option<LogFileId>,
    last: LogFileId,
}

impl View for LogFileIds {
    type V = Seq<(StreamId, u64)>;

    /// Stream and number of each file that is still to come.
    closed spec fn view(&self) -> Seq<(StreamId, u64)> {
        match self.next {
            None => Seq::empty(),
            Some(next) => Seq::new(
                (self.last.file_number@ - next.file_number@ + 1) as nat,
                |i: int| (next.stream_id, (next.file_number@ + i) as u64),
            ),
        }
    }
}

impl LogFileIds {
    pub closed spec fn wf(self) -> bool {
        &&& self.last.file_number@ <= MAX_LOG_FILE_NUMBER
        &&& self.next matches Some(next) ==> next.precedes_or_is(self.last)
    }

    /// Takes the first of the files that are still to come; none once all were taken.
    pub fn next(&mut self) -> (item: Option<LogFileId>)
        requires
            old(self).wf(),
        ensures
            final(self).wf(),
            match item {
                None => old(self)@.len() == 0 && final(self)@ == old(self)@,
                Some(file_id) => {
                    &&& old(self)@.len() > 0
                    &&& (file_id.stream_id, file_id.file_number@) == old(self)@[0]
                    &&& final(self)@ == old(self)@.drop_first()
                },
            },
    {
        match self.next {
            None => None,
            Some(file_id) => {
                if file_id == self.last {
                    self.next = None;
                } else {
                    proof {
                        file_id.file_number.equal_by_number(self.last.file_number);
                    }
                    self.next = Some(file_id.next());
                }
                assert(self@ =~= old(self)@.drop_first());
                Some(file_id)
            },
        }
    }
}

} // verus!
