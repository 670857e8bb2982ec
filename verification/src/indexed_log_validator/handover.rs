use vstd::prelude::*;

use crate::file::{FileReply, FileRequest};
use crate::index_writer::IndexWriteError;
use crate::indexed_log_validator::validator_state::ValidatorState;
use crate::indexed_log_validator::{CompletedIndexedLog, LogValidationError};
use crate::indexed_log_writer::writer_state::WriterState;
use crate::indexed_log_writer::{IndexedLogWriteError, IndexedLogWriter, WriterPhase};
use crate::io_error::IoError;
use crate::location::{LogFileId, RecordEndLocation};
use crate::record::RecordOutputError;
use crate::validation::{validated_file_pair, PairRequest};

verus! {

impl ValidatorState {
    /// Why the pair cannot be handed over, if it cannot.
    pub open spec fn handover_refusal(self) -> Option<LogValidationError> {
        if let Some(refusal) = self.refusal() {
            Some(refusal)
        } else if !self.log_ready {
            Some(LogValidationError::LogRepairRequired)
        } else if !self.index_ready {
            Some(LogValidationError::IndexRepairRequired)
        } else {
            None
        }
    }
}

/// How far a handover has come; every stage but the last has one outstanding request.
#[derive(Clone, Copy, Debug, PartialEq, Eq, Structural)]
pub enum HandoverStage {
    SeekLog,
    SeekIndex,
    CheckLog,
    CheckIndex,
    FlushLog,
    SyncLog,
    FlushIndex,
    SyncIndex,
    Finished,
}

/// A validated pair on its way to its next owner.
pub struct HandoverState {
    pub file_id: LogFileId,
    pub end: Option<RecordEndLocation>,
    pub log_length: u64,
    pub index_length: u64,
    pub stage: HandoverStage,
}

impl HandoverState {
    pub open spec fn at(self, stage: HandoverStage) -> HandoverState {
        HandoverState { stage, ..self }
    }

    /// The outstanding request.
    pub open spec fn request(self) -> PairRequest {
        match self.stage {
            HandoverStage::SeekLog => PairRequest::Log(FileRequest::Seek(self.log_length)),
            HandoverStage::SeekIndex => PairRequest::Index(FileRequest::Seek(self.index_length)),
            HandoverStage::CheckLog => PairRequest::Log(FileRequest::Length),
            HandoverStage::CheckIndex => PairRequest::Index(FileRequest::Length),
            HandoverStage::FlushLog => PairRequest::Log(FileRequest::Flush),
            HandoverStage::SyncLog => PairRequest::Log(FileRequest::SyncData),
            HandoverStage::FlushIndex => PairRequest::Index(FileRequest::Flush),
            HandoverStage::SyncIndex => PairRequest::Index(FileRequest::SyncData),
            HandoverStage::Finished => PairRequest::Finished,
        }
    }

    /// Whether `reply` is an outcome of the outstanding request.
    pub open spec fn is_answered_by(self, reply: FileReply) -> bool {
        match self.request() {
            PairRequest::Log(request) => request.is_answered_by(reply, 0),
            PairRequest::Index(request) => request.is_answered_by(reply, 0),
            _ => false,
        }
    }

    /// Whether the pair still has its known length, as far as `reply` measures one.
    pub open spec fn is_unchanged(self, reply: FileReply) -> bool {
        match (self.stage, reply) {
            (HandoverStage::CheckLog, FileReply::Length(length)) => length == self.log_length,
            (HandoverStage::CheckIndex, FileReply::Length(length)) => length == self.index_length,
            _ => true,
        }
    }

    /// The error for a failed operation on the pair itself.
    pub open spec fn io_error(self, error: IoError) -> LogValidationError {
        match self.request() {
            PairRequest::Log(_) => LogValidationError::LogIo(error),
            _ => LogValidationError::IndexIo(error),
        }
    }

    /// The stage that follows in a handover to a writer: both files are positioned, measured again
    /// and made durable.
    pub open spec fn next_for_writer(self) -> HandoverStage {
        match self.stage {
            HandoverStage::SeekLog => HandoverStage::SeekIndex,
            HandoverStage::SeekIndex => HandoverStage::CheckLog,
            HandoverStage::CheckLog => HandoverStage::CheckIndex,
            HandoverStage::CheckIndex => HandoverStage::SyncLog,
            HandoverStage::SyncLog => HandoverStage::SyncIndex,
            _ => HandoverStage::Finished,
        }
    }

    /// The stage that follows in a handover of a full pair: both files are measured again, flushed
    /// and made durable, the log first.
    pub open spec fn next_for_completion(self) -> HandoverStage {
        match self.stage {
            HandoverStage::CheckLog => HandoverStage::CheckIndex,
            HandoverStage::CheckIndex => HandoverStage::FlushLog,
            HandoverStage::FlushLog => HandoverStage::SyncLog,
            HandoverStage::SyncLog => HandoverStage::FlushIndex,
            HandoverStage::FlushIndex => HandoverStage::SyncIndex,
            _ => HandoverStage::Finished,
        }
    }

    /// The error for a failed operation in a handover to a writer.
    pub open spec fn writer_error(self, error: IoError) -> LogValidationError {
        match self.stage {
            HandoverStage::SyncLog => LogValidationError::Writer(
                IndexedLogWriteError::Log(RecordOutputError::Io(error)),
            ),
            HandoverStage::SyncIndex => LogValidationError::Writer(
                IndexedLogWriteError::Index(IndexWriteError::Io(error)),
            ),
            _ => self.io_error(error),
        }
    }
}

enum Files<F> {
    Pair { log: F, index: F },
    Writer(IndexedLogWriter<F, F>),
}

/// A handover of a pair with room for more records to a writer, between two operations.
pub struct WriterHandover<F> {
    file_id: LogFileId,
    end: Option<RecordEndLocation>,
    log_length: u64,
    index_length: u64,
    stage: HandoverStage,
    files: Files<F>,
}

impl<F> View for WriterHandover<F> {
    type V = HandoverState;

    closed spec fn view(&self) -> HandoverState {
        HandoverState {
            file_id: self.file_id,
            end: self.end,
            log_length: self.log_length,
            index_length: self.index_length,
            stage: self.stage,
        }
    }
}

impl<F> WriterHandover<F> {
    pub closed spec fn spec_log(self) -> F {
        match self.files {
            Files::Pair { log, .. } => log,
            Files::Writer(writer) => writer.spec_log(),
        }
    }

    pub closed spec fn spec_index(self) -> F {
        match self.files {
            Files::Pair { index, .. } => index,
            Files::Writer(writer) => writer.spec_index(),
        }
    }

    pub closed spec fn wf(self) -> bool {
        &&& validated_file_pair::is_file_end(self.file_id, self.end)
        &&& self.end matches Some(end) ==> end.record_id.has_next()
        &&& self.stage != HandoverStage::FlushLog && self.stage != HandoverStage::FlushIndex
        &&& match self.files {
            Files::Pair { .. } => {
                ||| self.stage == HandoverStage::SeekLog
                ||| self.stage == HandoverStage::SeekIndex
                ||| self.stage == HandoverStage::CheckLog
                ||| self.stage == HandoverStage::CheckIndex
            },
            Files::Writer(writer) => {
                let opened = WriterState::initial(self.file_id, self.end, None);
                &&& writer@.wf()
                &&& match self.stage {
                    HandoverStage::SyncLog => writer@ == opened.syncing_log(),
                    HandoverStage::SyncIndex => {
                        &&& writer@ == (WriterState {
                            index: writer@.index,
                            phase: WriterPhase::SyncingIndex,
                            ..opened
                        })
                    },
                    HandoverStage::Finished => writer@ == WriterState::initial(
                        self.file_id,
                        self.end,
                        self.end,
                    ),
                    _ => false,
                }
            },
        }
    }

    pub(crate) fn new(
        file_id: LogFileId,
        end: Option<RecordEndLocation>,
        log_length: u64,
        index_length: u64,
        log: F,
        index: F,
    ) -> (handover: WriterHandover<F>)
        requires
            validated_file_pair::is_file_end(file_id, end),
            end matches Some(end) ==> end.record_id.has_next(),
        ensures
            handover.wf(),
            handover@ == (HandoverState {
                file_id,
                end,
                log_length,
                index_length,
                stage: HandoverStage::SeekLog,
            }),
            handover.spec_log() == log,
            handover.spec_index() == index,
    {
        WriterHandover {
            file_id,
            end,
            log_length,
            index_length,
            stage: HandoverStage::SeekLog,
            files: Files::Pair { log, index },
        }
    }

    pub fn request(&self) -> (request: PairRequest)
        ensures
            request == self@.request(),
    {
        match self.stage {
            HandoverStage::SeekLog => PairRequest::Log(FileRequest::Seek(self.log_length)),
            HandoverStage::SeekIndex => PairRequest::Index(FileRequest::Seek(self.index_length)),
            HandoverStage::CheckLog => PairRequest::Log(FileRequest::Length),
            HandoverStage::CheckIndex => PairRequest::Index(FileRequest::Length),
            HandoverStage::FlushLog => PairRequest::Log(FileRequest::Flush),
            HandoverStage::SyncLog => PairRequest::Log(FileRequest::SyncData),
            HandoverStage::FlushIndex => PairRequest::Index(FileRequest::Flush),
            HandoverStage::SyncIndex => PairRequest::Index(FileRequest::SyncData),
            HandoverStage::Finished => PairRequest::Finished,
        }
    }

    /// The log to perform a request on.
    pub fn log(&mut self) -> (log: &mut F)
        requires
            old(self).wf(),
        ensures
            *log == old(self).spec_log(),
            final(self)@ == old(self)@,
            final(self).wf(),
            final(self).spec_log() == *final(log),
            final(self).spec_index() == old(self).spec_index(),
    {
        match &mut self.files {
            Files::Pair { log, .. } => log,
            Files::Writer(writer) => writer.log_destination().0,
        }
    }

    /// The index to perform a request on.
    pub fn index(&mut self) -> (index: &mut F)
        requires
            old(self).wf(),
        ensures
            *index == old(self).spec_index(),
            final(self)@ == old(self)@,
            final(self).wf(),
            final(self).spec_log() == old(self).spec_log(),
            final(self).spec_index() == *final(index),
    {
        match &mut self.files {
            Files::Pair { index, .. } => index,
            Files::Writer(writer) => writer.index_destination().0,
        }
    }

    /// Takes the outcome of the outstanding request.
    pub fn resume(self, reply: FileReply) -> (result: Result<
        WriterHandover<F>,
        LogValidationError,
    >)
        requires
            self.wf(),
            self@.is_answered_by(reply),
        ensures
            match (result, reply) {
                (Ok(next), _) => {
                    &&& next.wf()
                    &&& next.spec_log() == self.spec_log()
                    &&& next.spec_index() == self.spec_index()
                    &&& !(reply is Failed)
                    &&& self@.is_unchanged(reply)
                    &&& next@ == self@.at(self@.next_for_writer())
                },
                (Err(error), FileReply::Failed(failure)) => error == self@.writer_error(failure),
                (Err(error), _) => {
                    !self@.is_unchanged(reply) && error == LogValidationError::FilesChanged
                },
            },
    {
        let WriterHandover { file_id, end, log_length, index_length, stage, files } = self;
        match files {
            Files::Pair { log, index } => {
                let on_log = matches!(stage, HandoverStage::SeekLog | HandoverStage::CheckLog);
                match reply {
                    FileReply::Failed(error) => {
                        return Err(
                            if on_log {
                                LogValidationError::LogIo(error)
                            } else {
                                LogValidationError::IndexIo(error)
                            },
                        );
                    },
                    FileReply::Length(length) => {
                        let known: u64 = if on_log {
                            log_length
                        } else {
                            index_length
                        };
                        if length != known {
                            return Err(LogValidationError::FilesChanged);
                        }
                    },
                    _ => {},
                }
                let (stage, files) = match stage {
                    HandoverStage::SeekLog => (
                        HandoverStage::SeekIndex,
                        Files::Pair { log, index },
                    ),
                    HandoverStage::SeekIndex => (
                        HandoverStage::CheckLog,
                        Files::Pair { log, index },
                    ),
                    HandoverStage::CheckLog => (
                        HandoverStage::CheckIndex,
                        Files::Pair { log, index },
                    ),
                    _ => {
                        let mut writer = IndexedLogWriter::from_validated(
                            file_id,
                            log,
                            index,
                            end,
                            None,
                        );
                        if let Err(error) = writer.sync_data() {
                            return Err(LogValidationError::Writer(error));
                        }
                        (HandoverStage::SyncLog, Files::Writer(writer))
                    },
                };
                Ok(WriterHandover { file_id, end, log_length, index_length, stage, files })
            },
            Files::Writer(writer) => {
                let mut writer = writer;
                let outcome = match reply {
                    FileReply::Failed(error) => Err(error),
                    _ => Ok(0),
                };
                if let Err(error) = writer.resume(outcome) {
                    return Err(LogValidationError::Writer(error));
                }
                let stage = if stage == HandoverStage::SyncLog {
                    HandoverStage::SyncIndex
                } else {
                    HandoverStage::Finished
                };
                assert(stage == HandoverStage::Finished ==> writer@ =~= WriterState::initial(
                    file_id,
                    end,
                    end,
                ));
                Ok(
                    WriterHandover {
                        file_id,
                        end,
                        log_length,
                        index_length,
                        stage,
                        files: Files::Writer(writer),
                    },
                )
            },
        }
    }

    /// The writer on the durable and positioned pair.
    pub fn finish(self) -> (writer: IndexedLogWriter<F, F>)
        requires
            self.wf(),
            self@.stage == HandoverStage::Finished,
        ensures
            writer@ == WriterState::initial(self@.file_id, self@.end, self@.end),
            writer@.wf(),
            writer.spec_log() == self.spec_log(),
            writer.spec_index() == self.spec_index(),
    {
        match self.files {
            Files::Writer(writer) => writer,
            _ => vstd::pervasive::unreached(),
        }
    }
}

/// A handover of a full pair, between two operations.
pub struct CompletedHandover<F> {
    log: F,
    index: F,
    file_id: LogFileId,
    end: RecordEndLocation,
    log_length: u64,
    index_length: u64,
    stage: HandoverStage,
}

impl<F> View for CompletedHandover<F> {
    type V = HandoverState;

    closed spec fn view(&self) -> HandoverState {
        HandoverState {
            file_id: self.file_id,
            end: Some(self.end),
            log_length: self.log_length,
            index_length: self.index_length,
            stage: self.stage,
        }
    }
}

impl<F> CompletedHandover<F> {
    pub closed spec fn spec_log(self) -> F {
        self.log
    }

    pub closed spec fn spec_index(self) -> F {
        self.index
    }

    /// Positions do not matter for a full pair.
    pub open spec fn wf(self) -> bool {
        self@.stage != HandoverStage::SeekLog && self@.stage != HandoverStage::SeekIndex
    }

    pub(crate) fn new(
        file_id: LogFileId,
        end: RecordEndLocation,
        log_length: u64,
        index_length: u64,
        log: F,
        index: F,
    ) -> (handover: CompletedHandover<F>)
        ensures
            handover.wf(),
            handover@ == (HandoverState {
                file_id,
                end: Some(end),
                log_length,
                index_length,
                stage: HandoverStage::CheckLog,
            }),
            handover.spec_log() == log,
            handover.spec_index() == index,
    {
        CompletedHandover {
            log,
            index,
            file_id,
            end,
            log_length,
            index_length,
            stage: HandoverStage::CheckLog,
        }
    }

    pub fn request(&self) -> (request: PairRequest)
        ensures
            request == self@.request(),
    {
        match self.stage {
            HandoverStage::SeekLog => PairRequest::Log(FileRequest::Seek(self.log_length)),
            HandoverStage::SeekIndex => PairRequest::Index(FileRequest::Seek(self.index_length)),
            HandoverStage::CheckLog => PairRequest::Log(FileRequest::Length),
            HandoverStage::CheckIndex => PairRequest::Index(FileRequest::Length),
            HandoverStage::FlushLog => PairRequest::Log(FileRequest::Flush),
            HandoverStage::SyncLog => PairRequest::Log(FileRequest::SyncData),
            HandoverStage::FlushIndex => PairRequest::Index(FileRequest::Flush),
            HandoverStage::SyncIndex => PairRequest::Index(FileRequest::SyncData),
            HandoverStage::Finished => PairRequest::Finished,
        }
    }

    /// The log to perform a request on.
    pub fn log(&mut self) -> (log: &mut F)
        ensures
            *log == old(self).spec_log(),
            final(self)@ == old(self)@,
            final(self).spec_log() == *final(log),
            final(self).spec_index() == old(self).spec_index(),
    {
        &mut self.log
    }

    /// The index to perform a request on.
    pub fn index(&mut self) -> (index: &mut F)
        ensures
            *index == old(self).spec_index(),
            final(self)@ == old(self)@,
            final(self).spec_log() == old(self).spec_log(),
            final(self).spec_index() == *final(index),
    {
        &mut self.index
    }

    /// Takes the outcome of the outstanding request.
    pub fn resume(self, reply: FileReply) -> (result: Result<
        CompletedHandover<F>,
        LogValidationError,
    >)
        requires
            self.wf(),
            self@.is_answered_by(reply),
        ensures
            match (result, reply) {
                (Ok(next), _) => {
                    &&& next.wf()
                    &&& next.spec_log() == self.spec_log()
                    &&& next.spec_index() == self.spec_index()
                    &&& !(reply is Failed)
                    &&& self@.is_unchanged(reply)
                    &&& next@ == self@.at(self@.next_for_completion())
                },
                (Err(error), FileReply::Failed(failure)) => error == self@.io_error(failure),
                (Err(error), _) => {
                    !self@.is_unchanged(reply) && error == LogValidationError::FilesChanged
                },
            },
    {
        let mut next = self;
        match reply {
            FileReply::Failed(error) => {
                return Err(
                    match next.request() {
                        PairRequest::Log(_) => LogValidationError::LogIo(error),
                        _ => LogValidationError::IndexIo(error),
                    },
                );
            },
            FileReply::Length(length) => {
                let known: u64 = if next.stage == HandoverStage::CheckLog {
                    next.log_length
                } else {
                    next.index_length
                };
                if length != known {
                    return Err(LogValidationError::FilesChanged);
                }
            },
            _ => {},
        }
        next.stage = match next.stage {
            HandoverStage::CheckLog => HandoverStage::CheckIndex,
            HandoverStage::CheckIndex => HandoverStage::FlushLog,
            HandoverStage::FlushLog => HandoverStage::SyncLog,
            HandoverStage::SyncLog => HandoverStage::FlushIndex,
            HandoverStage::FlushIndex => HandoverStage::SyncIndex,
            _ => HandoverStage::Finished,
        };
        Ok(next)
    }

    /// The completed file. Both files are closed.
    pub fn finish(self) -> (completed: CompletedIndexedLog)
        requires
            self@.stage == HandoverStage::Finished,
        ensures
            self@.end == Some(completed.spec_end()),
    {
        CompletedIndexedLog::new(self.end)
    }
}

} // verus!
