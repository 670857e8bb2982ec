use vstd::prelude::*;

use crate::file::{FileReply, FileRequest};
use crate::index_entry;
use crate::index_entry::INDEX_ENTRY_LEN;
use crate::index_writer::{IndexWriteError, IndexWriteResult, IndexWriter};
use crate::io_error::IoError;
use crate::location::{LogFilePosition, RecordEndLocation, RECORDS_PER_FILE};
use crate::output::{OutputPhase, OutputRequest, OutputResult, OutputState};
use crate::validation::IndexFileValidationError;

verus! {

/// Checks a trusted index entry and replaces all entries behind it.
///
/// The entries behind the trusted one are always rewritten and the file is always synchronized,
/// also where the file already holds the supplied values.
pub struct IndexFileValidator;

/// How far a recovery of an index file has come: each stage has one outstanding request.
#[derive(Clone, Copy, Debug, PartialEq, Eq, Structural)]
pub enum IndexStage {
    ReadLength,
    SeekEntry,
    ReadEntry,
    Truncate,
    SeekSuffix,
    Send,
    Flush,
    Synchronize,
    Finished,
}

/// What a recovery of an index file has to do and how far it has come.
#[verifier::ext_equal]
pub struct IndexRecoveryState {
    pub last_trusted: Option<RecordEndLocation>,
    /// The record ends that follow the trusted one.
    pub suffix_ends: Seq<u64>,
    pub stage: IndexStage,
    pub output: OutputState,
}

impl IndexRecoveryState {
    /// Number of trusted entries.
    pub open spec fn trusted_count(self) -> int {
        RecordEndLocation::count(self.last_trusted)
    }

    /// First byte behind the trusted entries.
    pub open spec fn suffix_start(self) -> int {
        INDEX_ENTRY_LEN * self.trusted_count()
    }

    pub open spec fn wf(self) -> bool {
        &&& self.trusted_count() + self.suffix_ends.len() <= RECORDS_PER_FILE
        &&& self.output.wf()
        &&& match self.stage {
            IndexStage::ReadLength | IndexStage::SeekEntry | IndexStage::ReadEntry => {
                &&& self.last_trusted is Some
                &&& self.output.phase == OutputPhase::Idle
                &&& self.output.bytes == index_entry::encode(self.suffix_ends)
            },
            IndexStage::Truncate | IndexStage::SeekSuffix => {
                &&& self.output.phase == OutputPhase::Idle
                &&& self.output.bytes == index_entry::encode(self.suffix_ends)
            },
            IndexStage::Send => {
                &&& self.output.phase is Sending
                &&& self.output.bytes == index_entry::encode(self.suffix_ends)
            },
            IndexStage::Flush => {
                self.output.phase == OutputPhase::Flushing && self.output.bytes.len() == 0
            },
            IndexStage::Synchronize | IndexStage::Finished => {
                self.output.phase == OutputPhase::Idle && self.output.bytes.len() == 0
            },
        }
    }

    /// The outstanding request; none once recovery has finished.
    pub open spec fn request(self) -> Option<FileRequest> {
        match self.stage {
            IndexStage::ReadLength => Some(FileRequest::Length),
            IndexStage::SeekEntry => Some(
                FileRequest::Seek((self.suffix_start() - INDEX_ENTRY_LEN) as u64),
            ),
            IndexStage::ReadEntry => Some(FileRequest::ReadExact(INDEX_ENTRY_LEN as usize)),
            IndexStage::Truncate => Some(FileRequest::SetLen(self.suffix_start() as u64)),
            IndexStage::SeekSuffix => Some(FileRequest::Seek(self.suffix_start() as u64)),
            IndexStage::Send => Some(FileRequest::Write),
            IndexStage::Flush => Some(FileRequest::Flush),
            IndexStage::Synchronize => Some(FileRequest::SyncData),
            IndexStage::Finished => None,
        }
    }

    /// Whether `reply` is an outcome of the outstanding request.
    pub open spec fn is_answered_by(self, reply: FileReply) -> bool {
        self.request() matches Some(request) && request.is_answered_by(
            reply,
            self.output.unsent().len(),
        )
    }

    /// The same recovery at another stage.
    pub open spec fn at(self, stage: IndexStage, output: OutputState) -> IndexRecoveryState {
        IndexRecoveryState { stage, output, ..self }
    }

    /// The recovery with its entries about to be sent; without entries nothing is sent.
    pub open spec fn sending(self) -> IndexRecoveryState {
        if self.output.bytes.len() == 0 {
            self.at(IndexStage::Flush, self.output.with_phase(OutputPhase::Flushing))
        } else {
            self.at(IndexStage::Send, self.output.with_phase(OutputPhase::Sending { sent: 0 }))
        }
    }

    /// The mismatch to report for the stored value of the trusted entry.
    pub open spec fn mismatch(
        self,
        actual_position: Option<LogFilePosition>,
    ) -> IndexFileValidationError {
        IndexFileValidationError::TrustedIndexMismatch {
            entry_index: (self.trusted_count() - 1) as u64,
            expected_position: self.last_trusted->0.position,
            actual_position,
        }
    }

    /// The state at the beginning of a recovery.
    pub open spec fn initial(
        last_trusted: Option<RecordEndLocation>,
        suffix_ends: Seq<u64>,
    ) -> IndexRecoveryState {
        IndexRecoveryState {
            last_trusted,
            suffix_ends,
            stage: if last_trusted is Some {
                IndexStage::ReadLength
            } else {
                IndexStage::Truncate
            },
            output: OutputState {
                bytes: index_entry::encode(suffix_ends),
                phase: OutputPhase::Idle,
            },
        }
    }

    /// The outcome of a request as the entry output takes it.
    pub open spec fn output_reply(reply: FileReply) -> Result<usize, IoError> {
        match reply {
            FileReply::Failed(error) => Err(error),
            FileReply::Accepted(accepted) => Ok(accepted),
            _ => Ok(0),
        }
    }

    /// What an outcome of the outstanding request does: either recovery goes on, or it ends with
    /// an error and its file is given up.
    pub open spec fn resumed(
        self,
        reply: FileReply,
        after: Result<IndexRecoveryState, IndexFileValidationError>,
    ) -> bool {
        match (self.stage, reply) {
            (IndexStage::Send, _) => {
                self.resumed_sending(IndexRecoveryState::output_reply(reply), after)
            },
            (IndexStage::Flush, FileReply::Failed(error)) => {
                &&& after matches Err(IndexFileValidationError::Write(failure))
                &&& failure == IndexWriteError::Io(error)
            },
            (_, FileReply::Failed(error)) => {
                after matches Err(failure) && failure == IndexFileValidationError::Io(error)
            },
            (IndexStage::ReadLength, FileReply::Length(length)) => {
                if length < self.suffix_start() {
                    after matches Err(failure) && failure == self.mismatch(None)
                } else {
                    after matches Ok(next) && next == self.at(IndexStage::SeekEntry, self.output)
                }
            },
            (IndexStage::SeekEntry, _) => {
                after matches Ok(next) && next == self.at(IndexStage::ReadEntry, self.output)
            },
            (IndexStage::ReadEntry, FileReply::Bytes(bytes)) => {
                let stored = LogFilePosition(vstd::bytes::spec_u64_from_le_bytes(bytes@));
                if stored == self.last_trusted->0.position {
                    after matches Ok(next) && next == self.at(IndexStage::Truncate, self.output)
                } else {
                    after matches Err(failure) && failure == self.mismatch(Some(stored))
                }
            },
            (IndexStage::Truncate, _) => {
                after matches Ok(next) && next == self.at(IndexStage::SeekSuffix, self.output)
            },
            (IndexStage::SeekSuffix, _) => after matches Ok(next) && next == self.sending(),
            (IndexStage::Flush, _) => {
                &&& after matches Ok(next)
                &&& next == self.at(
                    IndexStage::Synchronize,
                    self.output.with_phase(OutputPhase::Idle),
                )
            },
            (IndexStage::Synchronize, _) => {
                after matches Ok(next) && next == self.at(IndexStage::Finished, self.output)
            },
            _ => false,
        }
    }

    /// What the outcome of a write does: once all entries were accepted the file is flushed.
    pub open spec fn resumed_sending(
        self,
        outcome: Result<usize, IoError>,
        after: Result<IndexRecoveryState, IndexFileValidationError>,
    ) -> bool {
        match after {
            Ok(next) => {
                ||| {
                    &&& next == self.at(IndexStage::Send, next.output)
                    &&& self.output.resumed(
                        outcome,
                        next.output,
                        OutputResult::Ok(Some(OutputRequest::Write)),
                    )
                }
                ||| {
                    &&& next == self.at(
                        IndexStage::Flush,
                        OutputState::empty().with_phase(OutputPhase::Flushing),
                    )
                    &&& self.output.resumed(outcome, OutputState::empty(), OutputResult::Ok(None))
                }
            },
            Err(failure) => {
                &&& failure matches IndexFileValidationError::Write(error)
                &&& self.output.resumed(
                    outcome,
                    self.output.with_phase(OutputPhase::Failed),
                    IndexWriteError::output(IndexWriteResult::Err(error)),
                )
            },
        }
    }
}

/// A recovery of an owned index file, between two operations on the file.
///
/// The owner performs [`request`](Self::request) on [`destination`](Self::destination) and hands
/// the outcome to [`resume`](Self::resume), until no request is left. An error gives up the file,
/// whose entries behind the trusted one may then be partly replaced.
pub struct IndexRecovery<F> {
    writer: IndexWriter<F>,
    last_trusted: Option<RecordEndLocation>,
    suffix_ends: Ghost<Seq<u64>>,
    stage: IndexStage,
}

impl<F> View for IndexRecovery<F> {
    type V = IndexRecoveryState;

    closed spec fn view(&self) -> IndexRecoveryState {
        IndexRecoveryState {
            last_trusted: self.last_trusted,
            suffix_ends: self.suffix_ends@,
            stage: self.stage,
            output: self.writer@,
        }
    }
}

impl IndexFileValidator {
    /// Begins to recover an index file.
    ///
    /// `last_trusted` is the end that a checkpoint certified for this file; its entry has to hold
    /// its position and the entries before it are trusted too. `suffix_ends` are the ends of all
    /// records accepted behind it. More entries than a file has records are refused before the
    /// file is touched.
    pub fn validate<F>(
        file: F,
        last_trusted: Option<RecordEndLocation>,
        suffix_ends: &[u64],
    ) -> (result: Result<IndexRecovery<F>, IndexFileValidationError>)
        requires
            RecordEndLocation::count(last_trusted) + suffix_ends@.len() <= u64::MAX,
        ensures
            match result {
                Ok(recovery) => {
                    &&& RecordEndLocation::count(last_trusted) + suffix_ends@.len()
                        <= RECORDS_PER_FILE
                    &&& recovery@ == IndexRecoveryState::initial(last_trusted, suffix_ends@)
                    &&& recovery@.wf()
                    &&& recovery.spec_file() == file
                },
                Err(error) => {
                    let count = RecordEndLocation::count(last_trusted) + suffix_ends@.len();
                    &&& count > RECORDS_PER_FILE
                    &&& error == (IndexFileValidationError::TooManyEntries {
                        count: count as u64,
                        maximum: RECORDS_PER_FILE,
                    })
                },
            },
    {
        let trusted_entry_count: u64 = RecordEndLocation::count_of(last_trusted);
        let entry_count: u64 = trusted_entry_count + suffix_ends.len() as u64;
        if entry_count > RECORDS_PER_FILE {
            return Err(
                IndexFileValidationError::TooManyEntries {
                    count: entry_count,
                    maximum: RECORDS_PER_FILE,
                },
            );
        }
        let mut writer = IndexWriter::with_file(file);
        let mut written: usize = 0;
        assert(writer@.bytes =~= index_entry::encode(suffix_ends@.take(0)));
        while written < suffix_ends.len()
            invariant
                written <= suffix_ends@.len(),
                writer@.wf(),
                writer@.phase == OutputPhase::Idle,
                writer@.bytes == index_entry::encode(suffix_ends@.take(written as int)),
                writer.spec_file() == file,
            decreases suffix_ends@.len() - written,
        {
            let _ = writer.write(suffix_ends[written]);
            proof {
                index_entry::lemma_encode_push(
                    suffix_ends@.take(written as int),
                    suffix_ends@[written as int],
                );
                assert(suffix_ends@.take(written + 1) =~= suffix_ends@.take(written as int).push(
                    suffix_ends@[written as int],
                ));
            }
            written = written + 1;
        }
        assert(suffix_ends@.take(written as int) =~= suffix_ends@);
        let stage = if last_trusted.is_some() {
            IndexStage::ReadLength
        } else {
            IndexStage::Truncate
        };
        Ok(IndexRecovery { writer, last_trusted, suffix_ends: Ghost(suffix_ends@), stage })
    }
}

impl<F> IndexRecovery<F> {
    pub closed spec fn spec_file(self) -> F {
        self.writer.spec_file()
    }

    /// The operation to perform on the file; none once recovery has finished.
    pub fn request(&self) -> (request: Option<FileRequest>)
        requires
            self@.wf(),
        ensures
            request == self@.request(),
    {
        let suffix_start: u64 = INDEX_ENTRY_LEN * RecordEndLocation::count_of(self.last_trusted);
        match self.stage {
            IndexStage::ReadLength => Some(FileRequest::Length),
            IndexStage::SeekEntry => Some(FileRequest::Seek(suffix_start - INDEX_ENTRY_LEN)),
            IndexStage::ReadEntry => Some(FileRequest::ReadExact(INDEX_ENTRY_LEN as usize)),
            IndexStage::Truncate => Some(FileRequest::SetLen(suffix_start)),
            IndexStage::SeekSuffix => Some(FileRequest::Seek(suffix_start)),
            IndexStage::Send => Some(FileRequest::Write),
            IndexStage::Flush => Some(FileRequest::Flush),
            IndexStage::Synchronize => Some(FileRequest::SyncData),
            IndexStage::Finished => None,
        }
    }

    /// The file to perform the request on, and the bytes that a write offers.
    pub fn destination(&mut self) -> (parts: (&mut F, &[u8]))
        requires
            old(self)@.wf(),
        ensures
            *parts.0 == old(self).spec_file(),
            parts.1@ == old(self)@.output.unsent(),
            final(self)@ == old(self)@,
            final(self).spec_file() == *final(parts.0),
    {
        self.writer.destination()
    }

    /// Takes the outcome of the outstanding request.
    pub fn resume(self, reply: FileReply) -> (result: Result<
        IndexRecovery<F>,
        IndexFileValidationError,
    >)
        requires
            self@.wf(),
            self@.is_answered_by(reply),
        ensures
            match result {
                Ok(next) => {
                    &&& next@.wf()
                    &&& next.spec_file() == self.spec_file()
                    &&& self@.resumed(reply, Ok(next@))
                },
                Err(error) => self@.resumed(reply, Err(error)),
            },
    {
        let trusted_entry_count: u64 = RecordEndLocation::count_of(self.last_trusted);
        match self.stage {
            IndexStage::Send => {
                match reply {
                    FileReply::Accepted(accepted) => self.resume_sending(Ok(accepted)),
                    FileReply::Failed(error) => self.resume_sending(Err(error)),
                    _ => self.resume_sending(Ok(0)),
                }
            },
            IndexStage::Flush => {
                let mut next = self;
                let flushed = match reply {
                    FileReply::Failed(error) => next.writer.resume(Err(error)),
                    _ => next.writer.resume(Ok(0)),
                };
                match flushed {
                    Ok(_) => {
                        next.stage = IndexStage::Synchronize;
                        Ok(next)
                    },
                    Err(error) => Err(IndexFileValidationError::Write(error)),
                }
            },
            stage => {
                let mut next = self;
                match reply {
                    FileReply::Failed(error) => Err(IndexFileValidationError::Io(error)),
                    FileReply::Length(length) => {
                        if length < INDEX_ENTRY_LEN * trusted_entry_count {
                            Err(next.mismatch(None))
                        } else {
                            next.stage = IndexStage::SeekEntry;
                            Ok(next)
                        }
                    },
                    FileReply::Bytes(bytes) => {
                        let stored: u64 = vstd::bytes::u64_from_le_bytes(bytes.as_slice());
                        if stored == RecordEndLocation::offset_of(next.last_trusted) {
                            next.stage = IndexStage::Truncate;
                            Ok(next)
                        } else {
                            Err(next.mismatch(Some(LogFilePosition::new(stored))))
                        }
                    },
                    _ => {
                        match stage {
                            IndexStage::SeekEntry => {
                                next.stage = IndexStage::ReadEntry;
                            },
                            IndexStage::Truncate => {
                                next.stage = IndexStage::SeekSuffix;
                            },
                            IndexStage::SeekSuffix => {
                                return next.begin_sending();
                            },
                            _ => {
                                next.stage = IndexStage::Finished;
                            },
                        }
                        Ok(next)
                    },
                }
            },
        }
    }

    fn mismatch(&self, actual_position: Option<LogFilePosition>) -> (error: IndexFileValidationError)
        requires
            self@.last_trusted is Some,
        ensures
            error == self@.mismatch(actual_position),
    {
        let entry_count: u64 = RecordEndLocation::count_of(self.last_trusted);
        IndexFileValidationError::TrustedIndexMismatch {
            entry_index: entry_count - 1,
            expected_position: LogFilePosition::new(
                RecordEndLocation::offset_of(self.last_trusted),
            ),
            actual_position,
        }
    }

    fn begin_sending(self) -> (result: Result<IndexRecovery<F>, IndexFileValidationError>)
        requires
            self@.wf(),
            self@.stage == IndexStage::SeekSuffix,
        ensures
            result matches Ok(next) && {
                &&& next@.wf()
                &&& next.spec_file() == self.spec_file()
                &&& next@ == self@.sending()
            },
    {
        let mut next = self;
        match next.writer.flush_buffer() {
            Ok(None) => {
                assert(next@.output =~= OutputState::empty());
                next.begin_flushing()
            },
            Ok(Some(_)) => {
                next.stage = IndexStage::Send;
                Ok(next)
            },
            Err(error) => Err(IndexFileValidationError::Write(error)),
        }
    }

    fn resume_sending(self, reply: Result<usize, IoError>) -> (result: Result<
        IndexRecovery<F>,
        IndexFileValidationError,
    >)
        requires
            self@.wf(),
            self@.stage == IndexStage::Send,
            self@.output.offered(reply),
        ensures
            match result {
                Ok(next) => {
                    &&& next@.wf()
                    &&& next.spec_file() == self.spec_file()
                    &&& self@.resumed_sending(reply, Ok(next@))
                },
                Err(error) => self@.resumed_sending(reply, Err(error)),
            },
    {
        let mut next = self;
        match next.writer.resume(reply) {
            Ok(None) => next.begin_flushing(),
            Ok(Some(_)) => Ok(next),
            Err(error) => Err(IndexFileValidationError::Write(error)),
        }
    }

    fn begin_flushing(self) -> (result: Result<IndexRecovery<F>, IndexFileValidationError>)
        requires
            self@.output == OutputState::empty(),
        ensures
            result matches Ok(next) && {
                &&& next.spec_file() == self.spec_file()
                &&& next@ == self@.at(
                    IndexStage::Flush,
                    OutputState::empty().with_phase(OutputPhase::Flushing),
                )
            },
    {
        let mut next = self;
        match next.writer.flush() {
            Ok(_) => {
                next.stage = IndexStage::Flush;
                Ok(next)
            },
            Err(error) => Err(IndexFileValidationError::Write(error)),
        }
    }

    /// The recovered and synchronized file.
    pub fn finish(self) -> (file: F)
        requires
            self@.stage == IndexStage::Finished,
        ensures
            file == self.spec_file(),
    {
        self.writer.into_inner()
    }
}

} // verus!
