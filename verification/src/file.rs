//! Requests to the owner of a file, their outcomes, and what a file does with them.
use vstd::prelude::*;

use crate::io_error::{IoError, IoErrorKind};

verus! {

/// One operation on a file.
#[derive(Clone, Copy, Debug, PartialEq, Eq, Structural)]
pub enum FileRequest {
    /// Report the file's length in bytes.
    Length,
    /// Set the file's length without moving the cursor.
    SetLen(u64),
    /// Move the cursor to an offset from the beginning.
    Seek(u64),
    /// Read exactly this many bytes at the cursor.
    ReadExact(usize),
    /// Read at the cursor up to the file's end, but no more than this many bytes.
    ReadUpTo(u64),
    /// Offer the pending bytes at the cursor and report how many were accepted.
    Write,
    /// Complete the file's own buffering.
    Flush,
    /// Make the file's data durable.
    SyncData,
}

/// The outcome of one operation on a file.
#[derive(Debug)]
pub enum FileReply {
    Length(u64),
    Bytes(Vec<u8>),
    Accepted(usize),
    Done,
    Failed(IoError),
}

impl FileRequest {
    /// Whether `reply` is an outcome of this request. `offered` is the number of bytes that a
    /// write offers.
    pub open spec fn is_answered_by(self, reply: FileReply, offered: nat) -> bool {
        match (self, reply) {
            (_, FileReply::Failed(_)) => true,
            (FileRequest::Length, FileReply::Length(_)) => true,
            (FileRequest::ReadExact(count), FileReply::Bytes(bytes)) => bytes@.len() == count,
            (FileRequest::ReadUpTo(limit), FileReply::Bytes(bytes)) => bytes@.len() <= limit,
            (FileRequest::Write, FileReply::Accepted(accepted)) => accepted <= offered,
            (FileRequest::SetLen(_), FileReply::Done) => true,
            (FileRequest::Seek(_), FileReply::Done) => true,
            (FileRequest::Flush, FileReply::Done) => true,
            (FileRequest::SyncData, FileReply::Done) => true,
            _ => false,
        }
    }

    /// Whether the operation leaves the file's contents alone even when it fails.
    pub open spec fn only_reads(self) -> bool {
        match self {
            FileRequest::Length => true,
            FileRequest::Seek(_) => true,
            FileRequest::ReadExact(_) => true,
            FileRequest::ReadUpTo(_) => true,
            _ => false,
        }
    }
}

/// A file's contents, its cursor, and the contents that have been made durable.
#[verifier::ext_equal]
pub struct FileImage {
    pub bytes: Seq<u8>,
    pub cursor: nat,
    pub durable: Seq<u8>,
}

impl FileImage {
    /// The contents cut or extended with zero bytes to `length`.
    pub open spec fn resized(bytes: Seq<u8>, length: nat) -> Seq<u8> {
        Seq::new(
            length,
            |i: int|
                if i < bytes.len() {
                    bytes[i]
                } else {
                    0u8
                },
        )
    }

    /// The contents after writing `written` at `offset`.
    pub open spec fn overwritten(bytes: Seq<u8>, offset: nat, written: Seq<u8>) -> Seq<u8> {
        Seq::new(
            if offset + written.len() > bytes.len() {
                offset + written.len()
            } else {
                bytes.len()
            },
            |i: int|
                if offset <= i < offset + written.len() {
                    written[i - offset]
                } else if i < bytes.len() {
                    bytes[i]
                } else {
                    0u8
                },
        )
    }

    /// Whether a file in this state may answer `request` with `reply` and be in the state `after`
    /// then. `offered` are the bytes that a write offers.
    ///
    /// An interrupted write has written nothing. Of any other failed operation that changes the
    /// file nothing is known but its failure.
    pub open spec fn serves(
        self,
        request: FileRequest,
        offered: Seq<u8>,
        reply: FileReply,
        after: FileImage,
    ) -> bool {
        &&& request.is_answered_by(reply, offered.len())
        &&& request.only_reads() ==> after.bytes == self.bytes && after.durable == self.durable
        &&& match (request, reply) {
            (FileRequest::Length, FileReply::Length(length)) => {
                length == self.bytes.len() && after == self
            },
            (FileRequest::Seek(offset), FileReply::Done) => after.cursor == offset,
            (FileRequest::ReadExact(count), FileReply::Bytes(bytes)) => {
                &&& self.cursor + count <= self.bytes.len()
                &&& bytes@ == self.bytes.subrange(self.cursor as int, self.cursor + count)
                &&& after.cursor == self.cursor + count
            },
            (FileRequest::ReadUpTo(limit), FileReply::Bytes(bytes)) => {
                let available = if self.cursor <= self.bytes.len() {
                    self.bytes.skip(self.cursor as int)
                } else {
                    Seq::empty()
                };
                &&& bytes@ == if available.len() <= limit {
                    available
                } else {
                    available.take(limit as int)
                }
                &&& after.cursor == self.cursor + bytes@.len()
            },
            (FileRequest::SetLen(length), FileReply::Done) => {
                &&& after.bytes == FileImage::resized(self.bytes, length as nat)
                &&& after.cursor == self.cursor
            },
            (FileRequest::Write, FileReply::Accepted(accepted)) => {
                &&& after.bytes == FileImage::overwritten(
                    self.bytes,
                    self.cursor,
                    offered.take(accepted as int),
                )
                &&& after.cursor == self.cursor + accepted
            },
            (FileRequest::Write, FileReply::Failed(error)) => {
                error.kind == IoErrorKind::Interrupted ==> after == self
            },
            (FileRequest::Flush, FileReply::Done) => {
                after.bytes == self.bytes && after.cursor == self.cursor
            },
            (FileRequest::SyncData, FileReply::Done) => {
                &&& after.bytes == self.bytes
                &&& after.cursor == self.cursor
                &&& after.durable == self.bytes
            },
            _ => true,
        }
    }

    /// Writing at the end of the contents appends.
    pub proof fn lemma_writing_at_the_end_appends(bytes: Seq<u8>, written: Seq<u8>)
        ensures
            FileImage::overwritten(bytes, bytes.len(), written) == bytes + written,
    {
        assert(FileImage::overwritten(bytes, bytes.len(), written) =~= bytes + written);
    }

    /// Shortening keeps the first bytes.
    pub proof fn lemma_shortening_keeps_a_prefix(bytes: Seq<u8>, length: nat)
        requires
            length <= bytes.len(),
        ensures
            FileImage::resized(bytes, length) == bytes.take(length as int),
    {
        assert(FileImage::resized(bytes, length) =~= bytes.take(length as int));
    }
}

} // verus!
