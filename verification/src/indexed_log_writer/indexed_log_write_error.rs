use vstd::prelude::*;

use crate::index_writer::IndexWriteError;
use crate::record::{RecordId, RecordOutputError};
use crate::text;

verus! {

/// A refused append or finalization, or failed output.
///
/// Refusals leave the writer as it is. Failed output makes the whole pair unusable.
#[derive(Debug)]
pub enum IndexedLogWriteError {
    /// The record is not the next one assigned to the file.
    UnexpectedRecordId { expected: RecordId, actual: RecordId },
    /// Every record position of the file is occupied.
    Full,
    /// The file still has unoccupied record positions.
    NotFull { record_count: u64 },
    /// The full pair has not been synchronized.
    NotSynchronized,
    /// The writer was finalized.
    Finalized,
    /// Earlier output failed, or has begun and was not completed.
    Unusable,
    /// Output, flushing or synchronization of the log failed.
    Log(RecordOutputError),
    /// Output, flushing or synchronization of the index failed.
    Index(IndexWriteError),
}

impl IndexedLogWriteError {
    /// The text of [`message`](Self::message).
    pub open spec fn shown(self) -> Seq<char> {
        match self {
            IndexedLogWriteError::UnexpectedRecordId { expected, actual } => {
                RecordId::unexpected(expected, actual)
            },
            IndexedLogWriteError::Full => "indexed log is full"@,
            IndexedLogWriteError::NotFull { record_count } => {
                "cannot finalize an indexed log containing only "@ + text::decimal(record_count as nat)
                    + " records"@
            },
            IndexedLogWriteError::NotSynchronized => {
                "cannot finalize before both log and index are synchronized"@
            },
            IndexedLogWriteError::Finalized => "indexed log is finalized"@,
            IndexedLogWriteError::Unusable => {
                "indexed log is unusable after incomplete or failed output"@
            },
            IndexedLogWriteError::Log(error) => "log output failed: "@ + error.shown(),
            IndexedLogWriteError::Index(error) => "index output failed: "@ + error.shown(),
        }
    }

    pub fn message(&self) -> (message: String)
        ensures
            message@ == self.shown(),
    {
        match self {
            IndexedLogWriteError::UnexpectedRecordId { expected, actual } => {
                RecordId::unexpected_message(*expected, *actual)
            },
            IndexedLogWriteError::Full => "indexed log is full".to_owned(),
            IndexedLogWriteError::NotFull { record_count } => {
                let mut message = "cannot finalize an indexed log containing only ".to_owned();
                text::push_decimal(&mut message, *record_count);
                message.append(" records");
                message
            },
            IndexedLogWriteError::NotSynchronized => {
                "cannot finalize before both log and index are synchronized".to_owned()
            },
            IndexedLogWriteError::Finalized => "indexed log is finalized".to_owned(),
            IndexedLogWriteError::Unusable => {
                "indexed log is unusable after incomplete or failed output".to_owned()
            },
            IndexedLogWriteError::Log(error) => {
                let mut message = "log output failed: ".to_owned();
                message.append(error.message().as_str());
                message
            },
            IndexedLogWriteError::Index(error) => {
                let mut message = "index output failed: ".to_owned();
                message.append(error.message().as_str());
                message
            },
        }
    }
}

} // verus!
