//! Failures of the storage that keeps streams.
use vstd::prelude::*;

use crate::io_error::IoError;
use crate::location::LogFileId;
use crate::record::StreamId;

verus! {

/// What a storage path leads to.
#[derive(Clone, Copy, Debug, PartialEq, Eq, Structural)]
pub enum StoragePath {
    Log(LogFileId),
    Index(LogFileId),
    Checkpoint(StreamId),
    /// The directory that holds a stream's files.
    Stream(StreamId),
}

/// A failed storage operation, the path it failed on and the storage's own words for it.
#[derive(Debug)]
pub enum StorageError {
    /// A file or directory operation failed.
    Io { path: StoragePath, source: IoError, description: String },
    /// Stored metadata is malformed.
    Json { path: StoragePath, description: String },
}

impl StorageError {
    /// The text of [`message`](Self::message).
    pub open spec fn shown(self) -> Seq<char> {
        match self {
            StorageError::Io { description, .. } => description@,
            StorageError::Json { description, .. } => description@,
        }
    }

    /// The description that came with the error.
    pub fn message(&self) -> (message: String)
        ensures
            message@ == self.shown(),
    {
        match self {
            StorageError::Io { description, .. } => description.as_str().to_owned(),
            StorageError::Json { description, .. } => description.as_str().to_owned(),
        }
    }
}

} // verus!
