use vstd::prelude::*;

use crate::location::MAX_LOG_FILE_NUMBER;
use crate::text;

verus! {

/// A raw file number with no range of sequence numbers.
#[derive(Clone, Copy, Debug, PartialEq, Eq, Structural)]
pub struct LogFileNumberError {
    /// The rejected number.
    pub value: u64,
}

impl LogFileNumberError {
    /// Keeps a number that file-number validation rejected.
    pub fn new(value: u64) -> (error: LogFileNumberError)
        ensures
            error == (LogFileNumberError { value }),
    {
        LogFileNumberError { value }
    }

    pub fn value(self) -> (value: u64)
        ensures
            value == self.value,
    {
        self.value
    }

    pub fn message(&self) -> (message: String)
        ensures
            message@ == "log file number "@ + text::decimal(self.value as nat)
                + " is outside the supported range 0..="@ + text::decimal(
                MAX_LOG_FILE_NUMBER as nat,
            ),
    {
        let mut message = "log file number ".to_owned();
        text::push_decimal(&mut message, self.value);
        message.append(" is outside the supported range 0..=");
        text::push_decimal(&mut message, MAX_LOG_FILE_NUMBER);
        message
    }
}

} // verus!
