use vstd::prelude::*;


verus! {

/// Which bytes to read from one log file.
///
/// Starts are inclusive and ends exclusive, in bytes from the beginning of the file. A postfix or
/// an entire file ends at the validated end of the file's records.
#[derive(Clone, Copy, Debug, PartialEq, Eq, Structural)]
pub enum LogFileRange {
    /// The requested records share one file.
    FileRange { start_position: u64, end_position: u64 },
    /// The first of several files, from the given start through its end.
    FilePostfix { start_position: u64 },
    /// A file between the first and the last one.
    EntireFile,
    /// The last of several files, from byte zero to the given end.
    FilePrefix { end_position: u64 },
}

} // verus!
