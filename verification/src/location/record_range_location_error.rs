use vstd::prelude::*;

use crate::location::{LogFileId, LogFilePosition};
use crate::record::{SequenceNumber, StreamId};
use crate::text;

verus! {

/// Endpoints that bound no range of records.
#[derive(Clone, Copy, Debug, PartialEq, Eq, Structural)]
pub enum RecordRangeLocationError {
    /// The endpoints belong to different streams.
    DifferentStreams { start_stream_id: StreamId, end_stream_id: StreamId },
    /// The last record precedes the first one.
    ReversedRecords { start_sequence_number: SequenceNumber, end_sequence_number: SequenceNumber },
    /// The last file's byte end is at or before its byte start.
    InvalidByteSpan {
        log_file_id: LogFileId,
        /// The supplied start for a single file, or zero for a later file's prefix.
        start_position: LogFilePosition,
        end_position: LogFilePosition,
    },
}

impl RecordRangeLocationError {
    pub fn message(&self) -> (message: String)
        ensures
            message@ == match *self {
                RecordRangeLocationError::DifferentStreams { start_stream_id, end_stream_id } => {
                    "record range starts in stream "@ + text::decimal(start_stream_id@ as nat)
                        + " and ends in stream "@ + text::decimal(end_stream_id@ as nat)
                },
                RecordRangeLocationError::ReversedRecords {
                    start_sequence_number,
                    end_sequence_number,
                } => {
                    "record range starts at sequence "@ + text::decimal(
                        start_sequence_number.0 as nat,
                    ) + " after its end "@ + text::decimal(end_sequence_number.0 as nat)
                },
                RecordRangeLocationError::InvalidByteSpan {
                    log_file_id,
                    start_position,
                    end_position,
                } => {
                    "record range has an empty or reversed byte span "@ + text::decimal(
                        start_position.0 as nat,
                    ) + ".."@ + text::decimal(end_position.0 as nat) + " in "@
                        + log_file_id.shown()
                },
            },
    {
        match *self {
            RecordRangeLocationError::DifferentStreams { start_stream_id, end_stream_id } => {
                let mut message = "record range starts in stream ".to_owned();
                text::push_decimal(&mut message, start_stream_id.get() as u64);
                message.append(" and ends in stream ");
                text::push_decimal(&mut message, end_stream_id.get() as u64);
                message
            },
            RecordRangeLocationError::ReversedRecords {
                start_sequence_number,
                end_sequence_number,
            } => {
                let mut message = "record range starts at sequence ".to_owned();
                text::push_decimal(&mut message, start_sequence_number.get());
                message.append(" after its end ");
                text::push_decimal(&mut message, end_sequence_number.get());
                message
            },
            RecordRangeLocationError::InvalidByteSpan {
                log_file_id,
                start_position,
                end_position,
            } => {
                let mut message = "record range has an empty or reversed byte span ".to_owned();
                text::push_decimal(&mut message, start_position.get());
                message.append("..");
                text::push_decimal(&mut message, end_position.get());
                message.append(" in ");
                log_file_id.push_shown(&mut message);
                message
            },
        }
    }
}

} // verus!
