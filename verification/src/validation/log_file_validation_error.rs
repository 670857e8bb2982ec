use vstd::prelude::*;

use crate::io_error::IoError;
use crate::record::RecordReadError;

verus! {

/// An unusable trusted end or a failed operation; neither authorizes truncation.
#[derive(Debug)]
pub enum LogFileValidationError {
    /// The trusted end cannot describe a prefix of this file.
    InvalidStart(&'static str),
    /// A length, seek, truncation or synchronization failed.
    Io(IoError),
    /// The record decoder failed.
    Read(RecordReadError),
}

impl LogFileValidationError {
    /// The text of [`message`](Self::message).
    pub open spec fn shown(self) -> Seq<char> {
        match self {
            LogFileValidationError::InvalidStart(reason) => {
                "invalid log validation start: "@ + reason@
            },
            LogFileValidationError::Io(error) => {
                "log file operation failed: "@ + error.description@
            },
            LogFileValidationError::Read(error) => {
                "log record reading failed: "@ + error.shown()
            },
        }
    }

    pub fn message(&self) -> (message: String)
        ensures
            message@ == self.shown(),
    {
        match self {
            LogFileValidationError::InvalidStart(reason) => {
                let mut message = "invalid log validation start: ".to_owned();
                message.append(reason);
                message
            },
            LogFileValidationError::Io(error) => {
                let mut message = "log file operation failed: ".to_owned();
                message.append(error.description.as_str());
                message
            },
            LogFileValidationError::Read(error) => {
                let mut message = "log record reading failed: ".to_owned();
                message.append(error.message().as_str());
                message
            },
        }
    }
}

} // verus!
