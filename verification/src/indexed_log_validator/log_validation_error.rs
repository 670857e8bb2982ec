use vstd::prelude::*;

use crate::index_writer::IndexWriteError;
use crate::indexed_log_writer::IndexedLogWriteError;
use crate::io_error::IoError;
use crate::record::RecordReadError;
use crate::storage::StorageError;

verus! {

/// A failed operation or an operation that is not available, as opposed to a bad suffix.
#[derive(Debug)]
pub enum LogValidationError {
    /// The log or the index could not be opened.
    Open(StorageError),
    /// The trusted end cannot describe a prefix of this file.
    InvalidStart(&'static str),
    /// The index does not hold the trusted prefix.
    TrustedIndexUnavailable,
    /// An operation on the log failed.
    LogIo(IoError),
    /// An operation on the index failed.
    IndexIo(IoError),
    /// The record decoder failed.
    Read(RecordReadError),
    /// Output of repaired index entries failed.
    IndexWrite(IndexWriteError),
    /// Synchronization for the resumed writer failed.
    Writer(IndexedLogWriteError),
    /// A file's length changed although nobody else may change it.
    FilesChanged,
    /// Validation has to finish first.
    NotValidated,
    /// An earlier operation failed, or has begun and was not completed.
    Unusable,
    /// The index has to be repaired first.
    IndexRepairRequired,
    /// The bad tail of the log has to be removed first.
    LogRepairRequired,
    /// A full file is handed over as a completed one.
    Full,
    /// A file with room for more records is handed over to a writer.
    NotFull,
}

impl LogValidationError {
    /// The text of [`message`](Self::message).
    pub open spec fn shown(self) -> Seq<char> {
        match self {
            LogValidationError::Open(error) => error.shown(),
            LogValidationError::InvalidStart(reason) => "invalid validation start: "@ + reason@,
            LogValidationError::TrustedIndexUnavailable => {
                "trusted index prefix is unavailable or inconsistent; supply an earlier trusted boundary"@
            },
            LogValidationError::LogIo(error) => {
                "log file operation failed: "@ + error.description@
            },
            LogValidationError::IndexIo(error) => {
                "index file operation failed: "@ + error.description@
            },
            LogValidationError::Read(error) => "record reading failed: "@ + error.shown(),
            LogValidationError::IndexWrite(error) => error.shown(),
            LogValidationError::Writer(error) => error.shown(),
            LogValidationError::FilesChanged => {
                "file lengths changed during validation or before repair/handover"@
            },
            LogValidationError::NotValidated => "validate the pair before repair or handover"@,
            LogValidationError::Unusable => {
                "validator is unusable after incomplete or failed I/O"@
            },
            LogValidationError::IndexRepairRequired => "repair the index before handover"@,
            LogValidationError::LogRepairRequired => {
                "explicitly truncate the invalid log tail before handover"@
            },
            LogValidationError::Full => "file is full; use into_completed"@,
            LogValidationError::NotFull => "file is not full; use into_writer"@,
        }
    }

    pub fn message(&self) -> (message: String)
        ensures
            message@ == self.shown(),
    {
        match self {
            LogValidationError::Open(error) => error.message(),
            LogValidationError::InvalidStart(reason) => {
                let mut message = "invalid validation start: ".to_owned();
                message.append(reason);
                message
            },
            LogValidationError::TrustedIndexUnavailable => {
                "trusted index prefix is unavailable or inconsistent; supply an earlier trusted boundary".to_owned()
            },
            LogValidationError::LogIo(error) => {
                let mut message = "log file operation failed: ".to_owned();
                message.append(error.description.as_str());
                message
            },
            LogValidationError::IndexIo(error) => {
                let mut message = "index file operation failed: ".to_owned();
                message.append(error.description.as_str());
                message
            },
            LogValidationError::Read(error) => {
                let mut message = "record reading failed: ".to_owned();
                message.append(error.message().as_str());
                message
            },
            LogValidationError::IndexWrite(error) => error.message(),
            LogValidationError::Writer(error) => error.message(),
            LogValidationError::FilesChanged => {
                "file lengths changed during validation or before repair/handover".to_owned()
            },
            LogValidationError::NotValidated => {
                "validate the pair before repair or handover".to_owned()
            },
            LogValidationError::Unusable => {
                "validator is unusable after incomplete or failed I/O".to_owned()
            },
            LogValidationError::IndexRepairRequired => {
                "repair the index before handover".to_owned()
            },
            LogValidationError::LogRepairRequired => {
                "explicitly truncate the invalid log tail before handover".to_owned()
            },
            LogValidationError::Full => "file is full; use into_completed".to_owned(),
            LogValidationError::NotFull => "file is not full; use into_writer".to_owned(),
        }
    }
}

} // verus!
