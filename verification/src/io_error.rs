//! Plain description of a failed file operation.
use vstd::prelude::*;

verus! {

/// The failure classes that decisions depend on; every other class is `Other`.
#[derive(Clone, Copy, Debug, PartialEq, Eq, Structural)]
pub enum IoErrorKind {
    NotFound,
    Interrupted,
    WriteZero,
    UnexpectedEof,
    Other,
}

/// A failed file operation: its class, its operating-system code and its description.
#[derive(Debug)]
pub struct IoError {
    pub kind: IoErrorKind,
    pub code: Option<i32>,
    pub description: String,
}

impl IoError {
    pub fn new(kind: IoErrorKind, code: Option<i32>, description: String) -> (error: IoError)
        ensures
            error == (IoError { kind, code, description }),
    {
        IoError { kind, code, description }
    }

    /// Whether this is the failure of a destination that accepts no bytes.
    pub open spec fn is_write_zero(self) -> bool {
        self.kind == IoErrorKind::WriteZero && self.code is None && self.description@ == "write zero"@
    }

    /// The failure of a destination that accepts no bytes of a non-empty write.
    pub fn write_zero() -> (error: IoError)
        ensures
            error.is_write_zero(),
    {
        IoError { kind: IoErrorKind::WriteZero, code: None, description: "write zero".to_owned() }
    }

    /// The failure class.
    pub fn kind(&self) -> (kind: IoErrorKind)
        ensures
            kind == self.kind,
    {
        self.kind
    }

    /// The operating-system error code, where there is one.
    pub fn raw_os_error(&self) -> (code: Option<i32>)
        ensures
            code == self.code,
    {
        self.code
    }
}

} // verus!
