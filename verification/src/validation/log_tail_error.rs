use vstd::prelude::*;

use crate::record::{RecordId, RecordReadError};

verus! {

/// Content that ends the accepted records of a log file.
///
/// Failed operations are separate errors: they never authorize truncation.
#[derive(Debug)]
pub enum LogTailError {
    /// The next record's framing, stream or checksum is wrong.
    Record(RecordReadError),
    /// The next record belongs to another stream or breaks the sequence.
    UnexpectedRecordId { expected: RecordId, actual: RecordId },
    /// Bytes follow the last record assigned to the file.
    ExtraData,
}

impl LogTailError {
    /// The text of [`message`](Self::message).
    pub open spec fn shown(self) -> Seq<char> {
        match self {
            LogTailError::Record(error) => "invalid record encoding: "@ + error.shown(),
            LogTailError::UnexpectedRecordId { expected, actual } => {
                RecordId::unexpected(expected, actual)
            },
            LogTailError::ExtraData => "bytes follow the complete assigned record range"@,
        }
    }

    pub fn message(&self) -> (message: String)
        ensures
            message@ == self.shown(),
    {
        match self {
            LogTailError::Record(error) => {
                let mut message = "invalid record encoding: ".to_owned();
                message.append(error.message().as_str());
                message
            },
            LogTailError::UnexpectedRecordId { expected, actual } => {
                RecordId::unexpected_message(*expected, *actual)
            },
            LogTailError::ExtraData => {
                "bytes follow the complete assigned record range".to_owned()
            },
        }
    }
}

} // verus!
