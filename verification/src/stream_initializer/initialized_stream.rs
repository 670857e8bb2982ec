use vstd::prelude::*;

use crate::location::{LogFileId, RecordEndLocation};
use crate::validation::validated_file_pair;

verus! {

/// One stream's active log and index.
///
/// The end describes this file only: an empty file behind a complete one has none. Recovered
/// records are durable and both files are positioned for appending. Only initialization constructs
/// this.
#[derive(Debug)]
pub struct InitializedStream<F> {
    file_id: LogFileId,
    log: F,
    index: F,
    end: Option<RecordEndLocation>,
}

impl<F> InitializedStream<F> {
    pub closed spec fn spec_file_id(self) -> LogFileId {
        self.file_id
    }

    pub closed spec fn spec_log(self) -> F {
        self.log
    }

    pub closed spec fn spec_index(self) -> F {
        self.index
    }

    pub closed spec fn spec_end(self) -> Option<RecordEndLocation> {
        self.end
    }

    #[verifier::type_invariant]
    spec fn is_appendable(self) -> bool {
        &&& validated_file_pair::is_file_end(self.file_id, self.end)
        &&& validated_file_pair::has_room(self.file_id, self.end)
    }

    pub(crate) fn new(
        file_id: LogFileId,
        log: F,
        index: F,
        end: Option<RecordEndLocation>,
    ) -> (stream: InitializedStream<F>)
        requires
            validated_file_pair::is_file_end(file_id, end),
            validated_file_pair::has_room(file_id, end),
        ensures
            stream.spec_file_id() == file_id,
            stream.spec_log() == log,
            stream.spec_index() == index,
            stream.spec_end() == end,
    {
        InitializedStream { file_id, log, index, end }
    }

    /// The file of the pair.
    pub fn file_id(&self) -> (file_id: LogFileId)
        ensures
            file_id == self.spec_file_id(),
    {
        self.file_id
    }

    /// The active log, positioned behind its records.
    pub fn log(&self) -> (log: &F)
        ensures
            *log == self.spec_log(),
    {
        &self.log
    }

    /// The active index, positioned behind its entries.
    pub fn index(&self) -> (index: &F)
        ensures
            *index == self.spec_index(),
    {
        &self.index
    }

    /// The last record's end in this file; none for an empty file.
    pub fn end(&self) -> (end: Option<RecordEndLocation>)
        ensures
            end == self.spec_end(),
    {
        self.end
    }

    /// Takes the pair apart.
    pub(crate) fn into_parts(self) -> (parts: (LogFileId, F, F, Option<RecordEndLocation>))
        ensures
            parts == (self.spec_file_id(), self.spec_log(), self.spec_index(), self.spec_end()),
            validated_file_pair::is_file_end(parts.0, parts.3),
            validated_file_pair::has_room(parts.0, parts.3),
    {
        proof {
            use_type_invariant(&self);
        }
        (self.file_id, self.log, self.index, self.end)
    }
}

} // verus!
