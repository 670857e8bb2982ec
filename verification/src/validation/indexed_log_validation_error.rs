use vstd::prelude::*;

use crate::storage::StorageError;
use crate::validation::{IndexFileValidationError, LogFileValidationError};

verus! {

/// Failure to open, recover or position a log and its index.
#[derive(Debug)]
pub enum IndexedLogValidationError {
    /// The log or the index could not be opened.
    Storage(StorageError),
    /// The log could not be recovered or positioned.
    Log(LogFileValidationError),
    /// The index could not be recovered or positioned.
    Index(IndexFileValidationError),
}

impl IndexedLogValidationError {
    /// The text of [`message`](Self::message).
    pub open spec fn shown(self) -> Seq<char> {
        match self {
            IndexedLogValidationError::Storage(error) => error.shown(),
            IndexedLogValidationError::Log(error) => error.shown(),
            IndexedLogValidationError::Index(error) => error.shown(),
        }
    }

    pub fn message(&self) -> (message: String)
        ensures
            message@ == self.shown(),
    {
        match self {
            IndexedLogValidationError::Storage(error) => error.message(),
            IndexedLogValidationError::Log(error) => error.message(),
            IndexedLogValidationError::Index(error) => error.message(),
        }
    }
}

} // verus!
