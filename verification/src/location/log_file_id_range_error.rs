use vstd::prelude::*;

use crate::location::LogFileId;

verus! {

/// Endpoints that bound no range of log files.
#[derive(Clone, Copy, Debug, PartialEq, Eq, Structural)]
pub enum LogFileIdRangeError {
    /// The endpoints belong to different streams.
    DifferentStreams { first: LogFileId, last: LogFileId },
    /// The last file precedes the first one in their stream.
    ReversedFiles { first: LogFileId, last: LogFileId },
}

impl LogFileIdRangeError {
    /// The text of [`message`](Self::message).
    pub open spec fn shown(self) -> Seq<char> {
        match self {
            LogFileIdRangeError::DifferentStreams { first, last } => {
                "log-file range endpoints belong to different streams: "@ + first.shown()
                    + " through "@ + last.shown()
            },
            LogFileIdRangeError::ReversedFiles { first, last } => {
                "log-file range is reversed: "@ + first.shown() + " through "@ + last.shown()
            },
        }
    }

    pub fn message(&self) -> (message: String)
        ensures
            message@ == self.shown(),
    {
        match *self {
            LogFileIdRangeError::DifferentStreams { first, last } => {
                let mut message = "log-file range endpoints belong to different streams: ".to_owned();
                first.push_shown(&mut message);
                message.append(" through ");
                last.push_shown(&mut message);
                message
            },
            LogFileIdRangeError::ReversedFiles { first, last } => {
                let mut message = "log-file range is reversed: ".to_owned();
                first.push_shown(&mut message);
                message.append(" through ");
                last.push_shown(&mut message);
                message
            },
        }
    }
}

} // verus!
