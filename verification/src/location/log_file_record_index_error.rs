use vstd::prelude::*;

use crate::location::LogFileId;
use crate::text;

verus! {

/// A zero-based record index outside a log file's range.
#[derive(Clone, Copy, Debug, PartialEq, Eq, Structural)]
pub struct LogFileRecordIndexError {
    pub file_id: LogFileId,
    pub index: u64,
    pub maximum_index: u64,
}

impl LogFileRecordIndexError {
    pub fn message(&self) -> (message: String)
        ensures
            message@ == "record index "@ + text::decimal(self.index as nat)
                + " exceeds maximum supported index "@ + text::decimal(self.maximum_index as nat)
                + " for log file "@ + self.file_id.shown(),
    {
        let mut message = "record index ".to_owned();
        text::push_decimal(&mut message, self.index);
        message.append(" exceeds maximum supported index ");
        text::push_decimal(&mut message, self.maximum_index);
        message.append(" for log file ");
        self.file_id.push_shown(&mut message);
        message
    }
}

} // verus!
