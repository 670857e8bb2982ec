use vstd::prelude::*;

use crate::location::LogFileNumberError;
use crate::record::SequenceNumber;

verus! {

/// Record positions assigned to every log file but the terminal one, which has fewer.
pub const RECORDS_PER_FILE: u64 = 100_000;

/// Number of the file that contains the last sequence number.
pub const MAX_LOG_FILE_NUMBER: u64 = 184_467_440_737_095;

/// Zero-based number of a log file within its stream.
///
/// Every number up to [`MAX_LOG_FILE_NUMBER`] has a non-empty range of sequence numbers; no
/// larger number exists as a value of this type.
#[derive(Clone, Copy, Debug, PartialEq, Eq, PartialOrd, Ord, Hash, Structural)]
pub struct LogFileNumber(u64);

impl View for LogFileNumber {
    type V = u64;

    closed spec fn view(&self) -> u64 {
        self.0
    }
}

impl LogFileNumber {
    #[verifier::type_invariant]
    spec fn in_domain(self) -> bool {
        self.0 <= MAX_LOG_FILE_NUMBER
    }

    /// Accepts exactly the numbers zero through [`MAX_LOG_FILE_NUMBER`].
    pub fn new(value: u64) -> (result: Result<LogFileNumber, LogFileNumberError>)
        ensures
            match result {
                Ok(number) => value <= MAX_LOG_FILE_NUMBER && number@ == value,
                Err(error) => value > MAX_LOG_FILE_NUMBER && error.value == value,
            },
    {
        if value <= MAX_LOG_FILE_NUMBER {
            Ok(LogFileNumber(value))
        } else {
            Err(LogFileNumberError::new(value))
        }
    }

    /// The stream's first file number, zero.
    pub fn min() -> (number: LogFileNumber)
        ensures
            number@ == 0,
    {
        LogFileNumber(0)
    }

    /// The stream's last file number, [`MAX_LOG_FILE_NUMBER`].
    pub fn max() -> (number: LogFileNumber)
        ensures
            number@ == MAX_LOG_FILE_NUMBER,
    {
        LogFileNumber(MAX_LOG_FILE_NUMBER)
    }

    /// The number of the file whose range contains `sequence_number`.
    pub fn from_sequence_number(sequence_number: SequenceNumber) -> (number: LogFileNumber)
        ensures
            number@ == sequence_number.0 / RECORDS_PER_FILE,
    {
        LogFileNumber(sequence_number.0 / RECORDS_PER_FILE)
    }

    pub fn get(self) -> (value: u64)
        ensures
            value == self@,
            value <= MAX_LOG_FILE_NUMBER,
    {
        proof {
            use_type_invariant(&self);
        }
        self.0
    }

    /// The following file number. The terminal file has none.
    pub fn next(self) -> (next: LogFileNumber)
        requires
            self@ < MAX_LOG_FILE_NUMBER,
        ensures
            next@ == self@ + 1,
    {
        LogFileNumber(self.0 + 1)
    }

    /// A file number is its number and nothing else.
    pub proof fn equal_by_number(self, other: LogFileNumber)
        ensures
            self@ == other@ <==> self == other,
    {
    }
}

} // verus!
