use vstd::prelude::*;

use crate::location::{LogFileIdRangeError, LogFileNumber};
use crate::record::StreamId;
use crate::storage::StorageError;
use crate::text;
use crate::validation::IndexedLogValidationError;

verus! {

/// Why a stream could not be initialized.
#[derive(Debug)]
pub enum StreamInitializationError {
    /// Reading, discovering, removing, creating or publishing failed.
    Storage(StorageError),
    /// The stream's checkpoint names another stream.
    ForeignCheckpoint { actual: StreamId, expected: StreamId },
    /// The checkpointed file is missing together with all others.
    MissingLogs { stream_id: StreamId, checkpointed: LogFileNumber },
    /// All files precede the checkpointed one.
    OutdatedLogs { maximum: LogFileNumber, stream_id: StreamId, checkpointed: LogFileNumber },
    /// The discovered files bound no range.
    Range(LogFileIdRangeError),
    /// A log or its index could not be recovered.
    Validation(IndexedLogValidationError),
}

impl StreamInitializationError {
    /// The message; `path` is where the stream's checkpoint is stored.
    pub fn message(&self, path: &str) -> (message: String)
        ensures
            message@ == match *self {
                StreamInitializationError::ForeignCheckpoint { actual, expected } => {
                    "checkpoint at "@ + path@ + " belongs to stream "@
                        + text::decimal(actual@ as nat) + ", expected "@ + text::decimal(
                        expected@ as nat,
                    )
                },
                StreamInitializationError::MissingLogs { stream_id, checkpointed } => {
                    "stream "@ + text::decimal(stream_id@ as nat)
                        + " has checkpointed file "@ + text::decimal(checkpointed@ as nat)
                        + " but no log files"@
                },
                StreamInitializationError::OutdatedLogs { maximum, stream_id, checkpointed } => {
                    "maximum log file "@ + text::decimal(maximum@ as nat)
                        + " for stream "@ + text::decimal(stream_id@ as nat)
                        + " is below checkpointed file "@ + text::decimal(checkpointed@ as nat)
                },
                StreamInitializationError::Storage(error) => error.shown(),
                StreamInitializationError::Range(error) => error.shown(),
                StreamInitializationError::Validation(error) => error.shown(),
            },
    {
        match self {
            StreamInitializationError::ForeignCheckpoint { actual, expected } => {
                let mut message = "checkpoint at ".to_owned();
                message.append(path);
                message.append(" belongs to stream ");
                text::push_decimal(&mut message, actual.get() as u64);
                message.append(", expected ");
                text::push_decimal(&mut message, expected.get() as u64);
                message
            },
            StreamInitializationError::MissingLogs { stream_id, checkpointed } => {
                let mut message = "stream ".to_owned();
                text::push_decimal(&mut message, stream_id.get() as u64);
                message.append(" has checkpointed file ");
                text::push_decimal(&mut message, checkpointed.get());
                message.append(" but no log files");
                message
            },
            StreamInitializationError::OutdatedLogs { maximum, stream_id, checkpointed } => {
                let mut message = "maximum log file ".to_owned();
                text::push_decimal(&mut message, maximum.get());
                message.append(" for stream ");
                text::push_decimal(&mut message, stream_id.get() as u64);
                message.append(" is below checkpointed file ");
                text::push_decimal(&mut message, checkpointed.get());
                message
            },
            StreamInitializationError::Storage(error) => error.message(),
            StreamInitializationError::Range(error) => error.message(),
            StreamInitializationError::Validation(error) => error.message(),
        }
    }
}

} // verus!
