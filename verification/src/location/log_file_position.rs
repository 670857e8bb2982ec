use core::cmp::Ordering;
use vstd::prelude::*;

use crate::record::RecordLength;

verus! {

/// A byte offset within a log file.
///
/// Every `u64` is representable. A position identifies no file and does not establish that it is
/// a record boundary; the value that holds it says which of a record's two boundaries it is.
#[derive(Clone, Copy, Debug, PartialEq, Eq, Ord, Hash, Structural)]
pub struct LogFilePosition(pub u64);

impl PartialOrd for LogFilePosition {
    fn partial_cmp(&self, other: &LogFilePosition) -> (order: Option<Ordering>) {
        if self.0 < other.0 {
            Some(Ordering::Less)
        } else if self.0 == other.0 {
            Some(Ordering::Equal)
        } else {
            Some(Ordering::Greater)
        }
    }
}

impl vstd::std_specs::cmp::PartialOrdSpecImpl for LogFilePosition {
    open spec fn obeys_partial_cmp_spec() -> bool {
        true
    }

    open spec fn partial_cmp_spec(&self, other: &LogFilePosition) -> Option<Ordering> {
        if self.0 < other.0 {
            Some(Ordering::Less)
        } else if self.0 == other.0 {
            Some(Ordering::Equal)
        } else {
            Some(Ordering::Greater)
        }
    }
}

impl LogFilePosition {
    /// Byte zero, the start of a log file.
    pub fn start() -> (position: LogFilePosition)
        ensures
            position.0 == 0,
    {
        LogFilePosition(0)
    }

    pub fn new(value: u64) -> (position: LogFilePosition)
        ensures
            position.0 == value,
    {
        LogFilePosition(value)
    }

    pub fn get(self) -> (value: u64)
        ensures
            value == self.0,
    {
        self.0
    }

    /// The position `length` bytes further on.
    pub open spec fn plus(self, length: RecordLength) -> LogFilePosition {
        LogFilePosition((self.0 + length@) as u64)
    }

    /// The position `length` bytes further back.
    pub open spec fn minus(self, length: RecordLength) -> LogFilePosition {
        LogFilePosition((self.0 - length@) as u64)
    }

    /// The position one encoded record further on in the same file.
    pub fn advance(self, length: RecordLength) -> (position: LogFilePosition)
        requires
            self.0 + length@ <= u64::MAX,
        ensures
            position == self.plus(length),
            position.0 == self.0 + length@,
    {
        LogFilePosition(self.0 + length.get())
    }

    /// The position one encoded record further back in the same file.
    pub fn retreat(self, length: RecordLength) -> (position: LogFilePosition)
        requires
            length@ <= self.0,
        ensures
            position == self.minus(length),
            position.0 == self.0 - length@,
    {
        LogFilePosition(self.0 - length.get())
    }

    /// Positions compare as their offsets do.
    pub proof fn positions_are_ordered_by_offset(self, other: LogFilePosition)
        ensures
            self == other <==> self.0 == other.0,
            vstd::std_specs::cmp::PartialOrdSpec::partial_cmp_spec(&self, &other) == Some(
                Ordering::Less,
            ) <==> self.0 < other.0,
            vstd::std_specs::cmp::PartialOrdSpec::partial_cmp_spec(&self, &other) == Some(
                Ordering::Equal,
            ) <==> self.0 == other.0,
            vstd::std_specs::cmp::PartialOrdSpec::partial_cmp_spec(&self, &other) == Some(
                Ordering::Greater,
            ) <==> self.0 > other.0,
    {
    }

    /// Advancing and retreating by one length undo each other wherever both are possible.
    pub proof fn advance_and_retreat_are_inverse(self, length: RecordLength)
        ensures
            self.0 + length@ <= u64::MAX ==> self.plus(length).minus(length) == self,
            length@ <= self.0 ==> self.minus(length).plus(length) == self,
    {
    }
}

} // verus!
