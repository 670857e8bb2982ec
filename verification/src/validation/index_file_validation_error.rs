use vstd::prelude::*;

use crate::index_writer::IndexWriteError;
use crate::io_error::IoError;
use crate::location::LogFilePosition;
use crate::text;

verus! {

/// Failure to check a trusted index entry or to replace the entries behind it.
#[derive(Debug)]
pub enum IndexFileValidationError {
    /// A length, seek, read, truncation or synchronization failed.
    Io(IoError),
    /// The trusted entry is absent or contains another log position.
    TrustedIndexMismatch {
        /// Zero-based entry of the trusted record.
        entry_index: u64,
        /// The trusted record's exclusive end.
        expected_position: LogFilePosition,
        /// The stored value, or none where the complete entry is absent.
        actual_position: Option<LogFilePosition>,
    },
    /// More entries than a log file has records.
    TooManyEntries { count: u64, maximum: u64 },
    /// Output of the entries failed.
    Write(IndexWriteError),
}

/// An optional number as diagnostic messages show it.
pub open spec fn shown_position(position: Option<LogFilePosition>) -> Seq<char> {
    match position {
        None => "None"@,
        Some(position) => "Some("@ + text::decimal(position.0 as nat) + ")"@,
    }
}

impl IndexFileValidationError {
    /// The text of [`message`](Self::message).
    pub open spec fn shown(self) -> Seq<char> {
        match self {
            IndexFileValidationError::Io(error) => {
                "index file operation failed: "@ + error.description@
            },
            IndexFileValidationError::TrustedIndexMismatch {
                entry_index,
                expected_position,
                actual_position,
            } => {
                "trusted index entry "@ + text::decimal(entry_index as nat)
                    + " must contain "@ + text::decimal(expected_position.0 as nat)
                    + ", but contains "@ + shown_position(actual_position)
            },
            IndexFileValidationError::TooManyEntries { count, maximum } => {
                "trusted prefix and supplied suffix contain "@ + text::decimal(count as nat)
                    + " entries; maximum is "@ + text::decimal(maximum as nat)
            },
            IndexFileValidationError::Write(error) => error.shown(),
        }
    }

    pub fn message(&self) -> (message: String)
        ensures
            message@ == self.shown(),
    {
        match self {
            IndexFileValidationError::Io(error) => {
                let mut message = "index file operation failed: ".to_owned();
                message.append(error.description.as_str());
                message
            },
            IndexFileValidationError::TrustedIndexMismatch {
                entry_index,
                expected_position,
                actual_position,
            } => {
                let mut message = "trusted index entry ".to_owned();
                text::push_decimal(&mut message, *entry_index);
                message.append(" must contain ");
                text::push_decimal(&mut message, expected_position.get());
                message.append(", but contains ");
                match actual_position {
                    None => {
                        message.append("None");
                    },
                    Some(position) => {
                        message.append("Some(");
                        text::push_decimal(&mut message, position.get());
                        message.append(")");
                    },
                }
                assert(message@ =~= "trusted index entry "@ + text::decimal(*entry_index as nat)
                    + " must contain "@ + text::decimal(expected_position.0 as nat)
                    + ", but contains "@ + shown_position(*actual_position));
                message
            },
            IndexFileValidationError::TooManyEntries { count, maximum } => {
                let mut message = "trusted prefix and supplied suffix contain ".to_owned();
                text::push_decimal(&mut message, *count);
                message.append(" entries; maximum is ");
                text::push_decimal(&mut message, *maximum);
                message
            },
            IndexFileValidationError::Write(error) => error.message(),
        }
    }
}

} // verus!
