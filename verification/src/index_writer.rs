//! Buffered output of dense index entries.
use vstd::prelude::*;

use crate::index_entry;
use crate::io_error::IoError;
use crate::output::{
    OutputBatch, OutputError, OutputPhase, OutputRequest, OutputResult, OutputState,
};

verus! {

/// A failed index-file operation, or an attempt to go on after incomplete output.
#[derive(Debug)]
pub enum IndexWriteError {
    /// Index-file output, flushing or synchronization failed.
    Io(IoError),
    /// An earlier operation failed, or has begun and was not completed.
    Unusable,
}

/// The next request, or none when the operation has completed.
pub type IndexWriteResult = Result<Option<OutputRequest>, IndexWriteError>;

impl IndexWriteError {
    /// The output result that `result` reports.
    pub open spec fn output(result: IndexWriteResult) -> OutputResult {
        match result {
            Ok(request) => OutputResult::Ok(request),
            Err(IndexWriteError::Io(error)) => OutputResult::Err(OutputError::Io(error)),
            Err(IndexWriteError::Unusable) => OutputResult::Err(OutputError::Unusable),
        }
    }

    /// The text of [`message`](Self::message).
    pub open spec fn shown(self) -> Seq<char> {
        match self {
            IndexWriteError::Io(error) => "index file I/O failed: "@ + error.description@,
            IndexWriteError::Unusable => {
                "index writer is unusable after incomplete or failed output"@
            },
        }
    }

    pub fn message(&self) -> (message: String)
        ensures
            message@ == self.shown(),
    {
        match self {
            IndexWriteError::Io(error) => {
                let mut message = "index file I/O failed: ".to_owned();
                message.append(error.description.as_str());
                message
            },
            IndexWriteError::Unusable => {
                "index writer is unusable after incomplete or failed output".to_owned()
            },
        }
    }

    fn report(output: OutputResult) -> (result: IndexWriteResult)
        ensures
            IndexWriteError::output(result) == output,
    {
        match output {
            Ok(request) => Ok(request),
            Err(OutputError::Io(error)) => Err(IndexWriteError::Io(error)),
            Err(OutputError::Unusable) => Err(IndexWriteError::Unusable),
        }
    }
}

/// Buffered append-only output of index entries to an owned file.
///
/// [`write`](Self::write) buffers one entry. Sending the batch, flushing the file and
/// synchronizing it are separate operations; each hands out requests that the owner of the file
/// performs on [`destination`](Self::destination) and answers through [`resume`](Self::resume).
///
/// The writer knows neither record identities nor the paired log. Its owner supplies the right
/// offsets and a file positioned after its last entry.
#[derive(Debug)]
pub struct IndexWriter<F> {
    file: F,
    batch: OutputBatch,
}

impl<F> View for IndexWriter<F> {
    type V = OutputState;

    closed spec fn view(&self) -> OutputState {
        self.batch@
    }
}

impl<F> IndexWriter<F> {
    pub closed spec fn spec_file(self) -> F {
        self.file
    }

    /// Takes over a file positioned after its last entry.
    pub fn new(file: F) -> (writer: IndexWriter<F>)
        ensures
            writer@ == OutputState::empty(),
            writer.spec_file() == file,
    {
        IndexWriter::with_file(file)
    }

    /// Takes over a file positioned after its last entry.
    pub fn with_file(file: F) -> (writer: IndexWriter<F>)
        ensures
            writer@ == OutputState::empty(),
            writer.spec_file() == file,
    {
        IndexWriter { file, batch: OutputBatch::new() }
    }

    /// Buffers one exclusive record end.
    pub fn write(&mut self, end_position: u64) -> (result: Result<(), IndexWriteError>)
        requires
            old(self)@.wf(),
        ensures
            final(self)@.wf(),
            final(self).spec_file() == old(self).spec_file(),
            if old(self)@.phase == OutputPhase::Idle {
                &&& final(self)@ == (OutputState {
                    bytes: old(self)@.bytes + vstd::bytes::spec_u64_to_le_bytes(end_position),
                    phase: OutputPhase::Idle,
                })
                &&& result == Ok::<(), IndexWriteError>(())
            } else {
                &&& final(self)@ == old(self)@
                &&& result == Err::<(), _>(IndexWriteError::Unusable)
            },
    {
        let mut entry: Vec<u8> = Vec::new();
        index_entry::push_entry(&mut entry, end_position);
        assert(entry@ =~= vstd::bytes::spec_u64_to_le_bytes(end_position));
        match self.batch.append(entry.as_slice()) {
            Ok(_) => Ok(()),
            Err(_) => Err(IndexWriteError::Unusable),
        }
    }

    /// The file.
    pub fn get_ref(&self) -> (file: &F)
        ensures
            *file == self.spec_file(),
    {
        &self.file
    }

    /// Gives the file back and drops buffered entries.
    pub fn into_inner(self) -> (file: F)
        ensures
            file == self.spec_file(),
    {
        self.file
    }

    /// The bytes that a write offers.
    pub fn unsent(&self) -> (bytes: &[u8])
        requires
            self@.wf(),
        ensures
            bytes@ == self@.unsent(),
    {
        self.batch.unsent()
    }

    /// The file to perform a request on, and the bytes that a write offers.
    pub fn destination(&mut self) -> (parts: (&mut F, &[u8]))
        requires
            old(self)@.wf(),
        ensures
            *parts.0 == old(self).spec_file(),
            parts.1@ == old(self)@.unsent(),
            final(self)@ == old(self)@,
            final(self).spec_file() == *final(parts.0),
    {
        (&mut self.file, self.batch.unsent())
    }

    /// Begins to send all buffered entries. An empty batch needs no output.
    pub fn flush_buffer(&mut self) -> (result: IndexWriteResult)
        requires
            old(self)@.wf(),
        ensures
            final(self)@.wf(),
            final(self).spec_file() == old(self).spec_file(),
            old(self)@.began_sending(final(self)@, IndexWriteError::output(result)),
    {
        IndexWriteError::report(self.batch.send())
    }

    /// Begins to complete the file's own buffering. Buffered entries stay unsent.
    pub fn flush(&mut self) -> (result: IndexWriteResult)
        requires
            old(self)@.wf(),
        ensures
            final(self)@.wf(),
            final(self).spec_file() == old(self).spec_file(),
            old(self)@.began(
                OutputPhase::Flushing,
                OutputRequest::Flush,
                final(self)@,
                IndexWriteError::output(result),
            ),
    {
        IndexWriteError::report(self.batch.flush())
    }

    /// Begins to make flushed data durable. Buffered entries stay unsent.
    pub fn sync_data(&mut self) -> (result: IndexWriteResult)
        requires
            old(self)@.wf(),
        ensures
            final(self)@.wf(),
            final(self).spec_file() == old(self).spec_file(),
            old(self)@.began(
                OutputPhase::Synchronizing,
                OutputRequest::SyncData,
                final(self)@,
                IndexWriteError::output(result),
            ),
    {
        IndexWriteError::report(self.batch.sync_data())
    }

    /// Takes the outcome of the last request and gives the next one, or none when the operation
    /// has completed.
    pub fn resume(&mut self, reply: Result<usize, IoError>) -> (result: IndexWriteResult)
        requires
            old(self)@.wf(),
            old(self)@.offered(reply),
        ensures
            final(self)@.wf(),
            final(self).spec_file() == old(self).spec_file(),
            old(self)@.resumed(reply, final(self)@, IndexWriteError::output(result)),
    {
        IndexWriteError::report(self.batch.resume(reply))
    }
}

} // verus!
