//! Record identities, lengths and encodings exchanged with the record decoder.
use vstd::prelude::*;

use crate::io_error::IoError;
use crate::output::{OutputError, OutputRequest, OutputResult};
use crate::text;

verus! {

/// Smallest complete encoded record: its header and checksum without a payload.
pub const MIN_RECORD_LEN: u64 = 16;

/// Largest complete encoded record.
pub const MAX_RECORD_LEN: u64 = 65_535;

/// Largest stream identifier.
pub const MAX_STREAM_ID: u16 = 4_095;

/// Identifier of one record stream, in the domain zero through [`MAX_STREAM_ID`].
#[derive(Clone, Copy, Debug, PartialEq, Eq, Hash, Structural)]
pub struct StreamId(u16);

/// A number outside the stream identifier domain.
#[derive(Clone, Copy, Debug, PartialEq, Eq, Structural)]
pub struct StreamIdError {
    pub value: u16,
}

impl View for StreamId {
    type V = u16;

    closed spec fn view(&self) -> u16 {
        self.0
    }
}

impl StreamId {
    #[verifier::type_invariant]
    spec fn in_domain(self) -> bool {
        self.0 <= MAX_STREAM_ID
    }

    /// Accepts exactly the numbers zero through [`MAX_STREAM_ID`].
    pub fn new(value: u16) -> (result: Result<StreamId, StreamIdError>)
        ensures
            match result {
                Ok(stream_id) => value <= MAX_STREAM_ID && stream_id@ == value,
                Err(error) => value > MAX_STREAM_ID && error.value == value,
            },
    {
        if value <= MAX_STREAM_ID {
            Ok(StreamId(value))
        } else {
            Err(StreamIdError { value })
        }
    }

    /// The smallest stream identifier, zero.
    pub fn min() -> (stream_id: StreamId)
        ensures
            stream_id@ == 0,
    {
        StreamId(0)
    }

    /// The largest stream identifier, [`MAX_STREAM_ID`].
    pub fn max() -> (stream_id: StreamId)
        ensures
            stream_id@ == MAX_STREAM_ID,
    {
        StreamId(MAX_STREAM_ID)
    }

    pub fn get(self) -> (value: u16)
        ensures
            value == self@,
            value <= MAX_STREAM_ID,
    {
        proof {
            use_type_invariant(&self);
        }
        self.0
    }

    /// A stream identifier is its number and nothing else.
    pub proof fn equal_by_number(self, other: StreamId)
        ensures
            self@ == other@ <==> self == other,
    {
    }
}

/// Zero-based position of a record in its stream.
#[derive(Clone, Copy, Debug, PartialEq, Eq, PartialOrd, Ord, Hash, Structural)]
pub struct SequenceNumber(pub u64);

impl SequenceNumber {
    pub fn new(value: u64) -> (sequence_number: SequenceNumber)
        ensures
            sequence_number.0 == value,
    {
        SequenceNumber(value)
    }

    pub fn get(self) -> (value: u64)
        ensures
            value == self.0,
    {
        self.0
    }
}

/// A record's identity: its stream and its sequence number in that stream.
#[derive(Clone, Copy, Debug, PartialEq, Eq, Hash, Structural)]
pub struct RecordId {
    pub stream_id: StreamId,
    pub sequence_number: SequenceNumber,
}

impl RecordId {
    pub fn new(stream_id: StreamId, sequence_number: SequenceNumber) -> (record_id: RecordId)
        ensures
            record_id == (RecordId { stream_id, sequence_number }),
    {
        RecordId { stream_id, sequence_number }
    }

    pub fn stream_id(self) -> (stream_id: StreamId)
        ensures
            stream_id == self.stream_id,
    {
        self.stream_id
    }

    pub fn sequence_number(self) -> (sequence_number: SequenceNumber)
        ensures
            sequence_number == self.sequence_number,
    {
        self.sequence_number
    }

    /// The record `distance` places after this one in the same stream.
    pub open spec fn plus(self, distance: int) -> RecordId {
        RecordId {
            stream_id: self.stream_id,
            sequence_number: SequenceNumber((self.sequence_number.0 + distance) as u64),
        }
    }

    /// Whether a record follows this one, i.e. its sequence number is not the last one.
    pub open spec fn has_next(self) -> bool {
        self.sequence_number.0 < u64::MAX
    }

    /// The record that follows this one in the same stream.
    ///
    /// The stream's last possible record has no successor.
    pub fn next(self) -> (next: RecordId)
        requires
            self.has_next(),
        ensures
            next == self.plus(1),
            next.stream_id == self.stream_id,
            next.sequence_number.0 == self.sequence_number.0 + 1,
    {
        RecordId {
            stream_id: self.stream_id,
            sequence_number: SequenceNumber(self.sequence_number.0 + 1),
        }
    }

    /// The identity as diagnostic messages show it.
    pub open spec fn shown(self) -> Seq<char> {
        "RecordId { stream_id: StreamId("@ + text::decimal(self.stream_id@ as nat)
            + "), sequence_number: SequenceNumber("@ + text::decimal(self.sequence_number.0 as nat)
            + ") }"@
    }

    /// Appends the identity as diagnostic messages show it.
    pub fn push_shown(self, message: &mut String)
        ensures
            final(message)@ == old(message)@ + self.shown(),
    {
        message.append("RecordId { stream_id: StreamId(");
        text::push_decimal(message, self.stream_id.get() as u64);
        message.append("), sequence_number: SequenceNumber(");
        text::push_decimal(message, self.sequence_number.get());
        message.append(") }");
        assert(message@ =~= old(message)@ + self.shown());
    }

    /// What a message says of a record that is not the expected one.
    pub open spec fn unexpected(expected: RecordId, actual: RecordId) -> Seq<char> {
        "expected record "@ + expected.shown() + ", received "@ + actual.shown()
    }

    /// The message for a record that is not the expected one.
    pub fn unexpected_message(expected: RecordId, actual: RecordId) -> (message: String)
        ensures
            message@ == RecordId::unexpected(expected, actual),
    {
        let mut message = "expected record ".to_owned();
        expected.push_shown(&mut message);
        message.append(", received ");
        actual.push_shown(&mut message);
        message
    }
}

/// Complete encoded length of one record, header and checksum counted.
#[derive(Clone, Copy, Debug, PartialEq, Eq, PartialOrd, Ord, Hash, Structural)]
pub struct RecordLength(u64);

/// A length that no encoded record has.
#[derive(Clone, Copy, Debug, PartialEq, Eq, Structural)]
pub struct RecordLengthError {
    pub value: u64,
}

impl View for RecordLength {
    type V = u64;

    closed spec fn view(&self) -> u64 {
        self.0
    }
}

/// Whether `value` is the length of some encoded record.
pub open spec fn is_record_length(value: int) -> bool {
    MIN_RECORD_LEN <= value <= MAX_RECORD_LEN
}

/// Whether `count` records can take up `length` bytes together.
pub open spec fn is_extent_of(length: int, count: int) -> bool {
    MIN_RECORD_LEN * count <= length <= MAX_RECORD_LEN * count
}

/// A record takes up 16 through 65,535 bytes, and `count` records that many times as much.
pub proof fn records_have_bounded_lengths(length: int, count: int)
    ensures
        is_record_length(length) <==> 16 <= length <= 65_535,
        is_extent_of(length, count) <==> 16 * count <= length <= 65_535 * count,
        is_extent_of(length, 1) <==> is_record_length(length),
{
}

impl RecordLength {
    #[verifier::type_invariant]
    spec fn in_domain(self) -> bool {
        is_record_length(self.0 as int)
    }

    /// Accepts exactly the lengths [`MIN_RECORD_LEN`] through [`MAX_RECORD_LEN`].
    pub fn new(value: u64) -> (result: Result<RecordLength, RecordLengthError>)
        ensures
            match result {
                Ok(length) => is_record_length(value as int) && length@ == value,
                Err(error) => !is_record_length(value as int) && error.value == value,
            },
    {
        if MIN_RECORD_LEN <= value && value <= MAX_RECORD_LEN {
            Ok(RecordLength(value))
        } else {
            Err(RecordLengthError { value })
        }
    }

    /// The smallest record length.
    pub fn min() -> (length: RecordLength)
        ensures
            length@ == MIN_RECORD_LEN,
    {
        RecordLength(MIN_RECORD_LEN)
    }

    /// The largest record length.
    pub fn max() -> (length: RecordLength)
        ensures
            length@ == MAX_RECORD_LEN,
    {
        RecordLength(MAX_RECORD_LEN)
    }

    pub fn get(self) -> (value: u64)
        ensures
            value == self@,
            is_record_length(value as int),
    {
        proof {
            use_type_invariant(&self);
        }
        self.0
    }
}

/// What sequence and position checks read of one decoded record.
#[derive(Clone, Copy, Debug, PartialEq, Eq, Structural)]
pub struct RecordHeader {
    pub id: RecordId,
    pub length: RecordLength,
}

/// One complete encoded record and its identity.
///
/// The decoder or encoder that produced the bytes answers for their framing and checksum.
#[derive(Debug)]
pub struct Record {
    id: RecordId,
    bytes: Vec<u8>,
}

impl Record {
    pub closed spec fn spec_id(self) -> RecordId {
        self.id
    }

    /// The complete encoding.
    pub closed spec fn spec_bytes(self) -> Seq<u8> {
        self.bytes@
    }

    #[verifier::type_invariant]
    spec fn has_record_length(self) -> bool {
        is_record_length(self.bytes.len() as int)
    }

    /// Joins an identity with its encoding, refusing an encoding whose length no record has.
    pub fn new(id: RecordId, bytes: Vec<u8>) -> (result: Result<Record, RecordLengthError>)
        ensures
            match result {
                Ok(record) => {
                    &&& is_record_length(bytes.len() as int)
                    &&& record.spec_id() == id
                    &&& record.spec_bytes() == bytes@
                },
                Err(error) => !is_record_length(bytes.len() as int) && error.value == bytes.len(),
            },
    {
        let length: u64 = bytes.len() as u64;
        if MIN_RECORD_LEN <= length && length <= MAX_RECORD_LEN {
            Ok(Record { id, bytes })
        } else {
            Err(RecordLengthError { value: length })
        }
    }

    pub fn id(&self) -> (id: RecordId)
        ensures
            id == self.spec_id(),
    {
        self.id
    }

    pub fn as_bytes(&self) -> (bytes: &[u8])
        ensures
            bytes@ == self.spec_bytes(),
            is_record_length(bytes@.len() as int),
    {
        proof {
            use_type_invariant(self);
        }
        self.bytes.as_slice()
    }

    pub fn length(&self) -> (length: RecordLength)
        ensures
            length@ == self.spec_bytes().len(),
    {
        proof {
            use_type_invariant(self);
        }
        RecordLength(self.bytes.len() as u64)
    }
}

/// Why the decoder could not hand out the next record.
///
/// `Io` and `ReaderFailed` are operational: they say nothing about the bytes. Every other variant
/// describes bytes that do not continue the record sequence. What the decoder found is kept in its
/// own words, as `description`.
#[derive(Debug)]
pub enum RecordReadError {
    Io(IoError),
    ReaderFailed { description: String },
    TruncatedHeader { description: String },
    InvalidLength { declared: u64, description: String },
    InvalidStreamId { description: String },
    TruncatedRecord { description: String },
    CrcMismatch { description: String },
}

impl RecordReadError {
    /// Whether the error describes the decoder's own failure instead of the bytes it read.
    pub open spec fn is_operational(self) -> bool {
        self is Io || self is ReaderFailed
    }

    /// The text of [`message`](Self::message).
    pub open spec fn shown(self) -> Seq<char> {
        match self {
            RecordReadError::Io(error) => error.description@,
            RecordReadError::ReaderFailed { description } => description@,
            RecordReadError::TruncatedHeader { description } => description@,
            RecordReadError::InvalidLength { description, .. } => description@,
            RecordReadError::InvalidStreamId { description } => description@,
            RecordReadError::TruncatedRecord { description } => description@,
            RecordReadError::CrcMismatch { description } => description@,
        }
    }

    /// The description that came with the error.
    pub fn message(&self) -> (message: String)
        ensures
            message@ == self.shown(),
    {
        match self {
            RecordReadError::Io(error) => error.description.as_str().to_owned(),
            RecordReadError::ReaderFailed { description } => description.as_str().to_owned(),
            RecordReadError::TruncatedHeader { description } => description.as_str().to_owned(),
            RecordReadError::InvalidLength { description, .. } => description.as_str().to_owned(),
            RecordReadError::InvalidStreamId { description } => description.as_str().to_owned(),
            RecordReadError::TruncatedRecord { description } => description.as_str().to_owned(),
            RecordReadError::CrcMismatch { description } => description.as_str().to_owned(),
        }
    }
}

/// Why record output was refused or failed.
#[derive(Debug)]
pub enum RecordOutputError {
    /// The destination failed.
    Io(IoError),
    /// An earlier operation failed, or has begun and was not completed.
    Unusable,
}

/// The next request, or none when the operation has completed.
pub type RecordOutputResult = Result<Option<OutputRequest>, RecordOutputError>;

impl RecordOutputError {
    /// The output result that `result` reports.
    pub open spec fn output(result: RecordOutputResult) -> OutputResult {
        match result {
            Ok(request) => OutputResult::Ok(request),
            Err(RecordOutputError::Io(error)) => OutputResult::Err(OutputError::Io(error)),
            Err(RecordOutputError::Unusable) => OutputResult::Err(OutputError::Unusable),
        }
    }

    /// The text of [`message`](Self::message).
    pub open spec fn shown(self) -> Seq<char> {
        match self {
            RecordOutputError::Io(error) => error.description@,
            RecordOutputError::Unusable => {
                "record writer is unusable after incomplete or failed output"@
            },
        }
    }

    /// The description of the failed operation, or words of this library for a refused one.
    pub fn message(&self) -> (message: String)
        ensures
            message@ == self.shown(),
    {
        match self {
            RecordOutputError::Io(error) => error.description.as_str().to_owned(),
            RecordOutputError::Unusable => {
                "record writer is unusable after incomplete or failed output".to_owned()
            },
        }
    }

    /// Reports the outcome of adding bytes to a batch.
    pub fn append(output: Result<(), OutputError>) -> (result: Result<(), RecordOutputError>)
        ensures
            match output {
                Ok(_) => result is Ok,
                Err(OutputError::Io(error)) => result
                    == Err::<(), RecordOutputError>(RecordOutputError::Io(error)),
                Err(OutputError::Unusable) => result
                    == Err::<(), RecordOutputError>(RecordOutputError::Unusable),
            },
    {
        match output {
            Ok(_) => Ok(()),
            Err(OutputError::Io(error)) => Err(RecordOutputError::Io(error)),
            Err(OutputError::Unusable) => Err(RecordOutputError::Unusable),
        }
    }

    /// Reports an output result.
    pub fn report(output: OutputResult) -> (result: RecordOutputResult)
        ensures
            RecordOutputError::output(result) == output,
    {
        match output {
            Ok(request) => Ok(request),
            Err(OutputError::Io(error)) => Err(RecordOutputError::Io(error)),
            Err(OutputError::Unusable) => Err(RecordOutputError::Unusable),
        }
    }
}

} // verus!
