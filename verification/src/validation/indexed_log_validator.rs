use vstd::prelude::*;

use crate::file::{FileReply, FileRequest};
use crate::index_entry::INDEX_ENTRY_LEN;
use crate::location::{LogFileId, RecordEndLocation, RECORDS_PER_FILE};
use crate::record::RecordReadError;
use crate::storage::StorageError;
use crate::validation::index_file_validator::{IndexRecoveryState, IndexStage};
use crate::validation::log_file_validator::{LogRecoveryState, LogStage};
use crate::validation::record_scan::{LogScanResult, RecordScan, ScanState};
use crate::validation::{
    IndexFileValidationError, IndexFileValidator, IndexRecovery, IndexedLogValidationError,
    LogFileValidationError, LogFileValidator, LogRecovery, LogRequest, ValidatedFilePair,
    ValidatedLogFile,
};

verus! {

/// Recovers one existing log and its paired index.
pub struct IndexedLogValidator;

/// What the owner of the storage does next.
#[derive(Clone, Copy, Debug, PartialEq, Eq, Structural)]
pub enum PairRequest {
    /// Open the existing log.
    OpenLog,
    /// Open the index, creating it where there is none.
    OpenIndex,
    /// Perform one operation on the log.
    Log(FileRequest),
    /// Run the scan over the log from its cursor on.
    ScanLog,
    /// Perform one operation on the index.
    Index(FileRequest),
    /// Nothing: recovery has finished.
    Finished,
}

/// How far a recovery of a pair has come.
#[verifier::ext_equal]
pub enum PairStage {
    OpenLog,
    OpenIndex,
    /// The log is being recovered.
    Log(LogRecoveryState),
    /// The log is recovered and the index is being recovered.
    Index(ScanState, IndexRecoveryState),
    /// Both are recovered; the log is being positioned.
    SeekLog(ScanState),
    /// Both are recovered; the index is being positioned.
    SeekIndex(ScanState),
    Finished(ScanState),
}

/// What a recovery of a pair has to do and how far it has come.
#[verifier::ext_equal]
pub struct PairRecoveryState {
    pub file_id: LogFileId,
    pub last_trusted: Option<RecordEndLocation>,
    pub stage: PairStage,
}

/// The outcome of a step: the recovery goes on, or it ends with an error and gives up its files.
pub type PairRecoveryResult = Result<PairRecoveryState, IndexedLogValidationError>;

impl PairRecoveryState {
    pub open spec fn at(self, stage: PairStage) -> PairRecoveryState {
        PairRecoveryState { stage, ..self }
    }

    /// Whether `scanned` are the findings of a scan of this log behind its trusted prefix.
    pub open spec fn is_scanned_by(self, scanned: ScanState) -> bool {
        self.log_recovery().is_scanned_by(scanned)
    }

    /// The log's recovery at its beginning.
    pub open spec fn log_recovery(self) -> LogRecoveryState {
        LogRecoveryState {
            file_id: self.file_id,
            last_trusted: self.last_trusted,
            stage: LogStage::ReadLength,
        }
    }

    /// The index's recovery at its beginning, behind the same trusted end as the log's.
    pub open spec fn index_recovery(self, scanned: ScanState) -> IndexRecoveryState {
        IndexRecoveryState::initial(self.last_trusted, scanned.suffix_ends())
    }

    pub open spec fn wf(self) -> bool {
        match self.stage {
            PairStage::OpenLog | PairStage::OpenIndex => true,
            PairStage::Log(log) => {
                &&& log.wf()
                &&& log.file_id == self.file_id
                &&& log.last_trusted == self.last_trusted
                &&& !(log.stage is Finished)
            },
            PairStage::Index(scanned, index) => {
                &&& self.is_scanned_by(scanned)
                &&& index.wf()
                &&& index.last_trusted == self.last_trusted
                &&& index.suffix_ends == scanned.suffix_ends()
                &&& index.stage != IndexStage::Finished
            },
            PairStage::SeekLog(scanned) | PairStage::SeekIndex(scanned) => {
                self.is_scanned_by(scanned) && scanned.count() < RECORDS_PER_FILE
            },
            PairStage::Finished(scanned) => self.is_scanned_by(scanned),
        }
    }

    /// The outstanding request.
    pub open spec fn request(self) -> PairRequest {
        match self.stage {
            PairStage::OpenLog => PairRequest::OpenLog,
            PairStage::OpenIndex => PairRequest::OpenIndex,
            PairStage::Log(log) => match log.request() {
                LogRequest::File(request) => PairRequest::Log(request),
                _ => PairRequest::ScanLog,
            },
            PairStage::Index(_, index) => PairRequest::Index(index.request()->0),
            PairStage::SeekLog(scanned) => PairRequest::Log(
                FileRequest::Seek(RecordEndLocation::offset(scanned.validated_end()) as u64),
            ),
            PairStage::SeekIndex(scanned) => PairRequest::Index(
                FileRequest::Seek((INDEX_ENTRY_LEN * scanned.count()) as u64),
            ),
            PairStage::Finished(_) => PairRequest::Finished,
        }
    }

    /// The bytes that a write to the index offers.
    pub open spec fn offered(self) -> Seq<u8> {
        match self.stage {
            PairStage::Index(_, index) => index.output.unsent(),
            _ => Seq::empty(),
        }
    }

    /// Whether `reply` is an outcome of the outstanding file operation.
    pub open spec fn is_answered_by(self, reply: FileReply) -> bool {
        match self.request() {
            PairRequest::Log(request) => request.is_answered_by(reply, 0),
            PairRequest::Index(request) => request.is_answered_by(reply, self.offered().len()),
            _ => false,
        }
    }

    /// The recovery once log and index are recovered: a full file is done with, any other one is
    /// positioned for appending.
    pub open spec fn recovered(self, scanned: ScanState) -> PairRecoveryState {
        if scanned.count() == RECORDS_PER_FILE {
            self.at(PairStage::Finished(scanned))
        } else {
            self.at(PairStage::SeekLog(scanned))
        }
    }

    /// What the outcome of opening a file does. The index is opened only after the log, and a
    /// trusted end of another file is refused only after both.
    pub open spec fn opened(self, failure: Option<StorageError>, after: PairRecoveryResult) -> bool {
        match failure {
            Some(error) => {
                &&& after matches Err(IndexedLogValidationError::Storage(reported))
                &&& reported == error
            },
            None => if self.stage is OpenLog {
                after matches Ok(next) && next == self.at(PairStage::OpenIndex)
            } else if self.last_trusted matches Some(end) && !self.file_id.assigns(end.record_id) {
                &&& after matches Err(IndexedLogValidationError::Log(
                    LogFileValidationError::InvalidStart(reason),
                ))
                &&& reason@ == "trusted endpoint belongs to another file"@
            } else {
                after matches Ok(next) && next == self.at(PairStage::Log(self.log_recovery()))
            },
        }
    }

    /// What an outcome of the outstanding file operation does.
    pub open spec fn resumed(self, reply: FileReply, after: PairRecoveryResult) -> bool {
        match self.stage {
            PairStage::Log(log) => match after {
                Err(IndexedLogValidationError::Log(error)) => log.resumed(reply, Err(error)),
                Ok(next) => {
                    ||| {
                        &&& next.stage matches PairStage::Log(next_log)
                        &&& next == self.at(PairStage::Log(next_log))
                        &&& !(next_log.stage is Finished)
                        &&& log.resumed(reply, Ok(next_log))
                    }
                    ||| {
                        &&& next.stage matches PairStage::Index(scanned, index)
                        &&& next == self.at(PairStage::Index(scanned, index))
                        &&& index == self.index_recovery(scanned)
                        &&& log.resumed(reply, Ok(log.at(LogStage::Finished(scanned))))
                    }
                },
                _ => false,
            },
            PairStage::Index(scanned, index) => match after {
                Err(IndexedLogValidationError::Index(error)) => index.resumed(reply, Err(error)),
                Ok(next) => {
                    ||| {
                        &&& next.stage matches PairStage::Index(_, next_index)
                        &&& next == self.at(PairStage::Index(scanned, next_index))
                        &&& next_index.stage != IndexStage::Finished
                        &&& index.resumed(reply, Ok(next_index))
                    }
                    ||| {
                        &&& next == self.recovered(scanned)
                        &&& index.resumed(reply, Ok(index.at(IndexStage::Finished, index.output)))
                    }
                },
                _ => false,
            },
            PairStage::SeekLog(scanned) => match reply {
                FileReply::Failed(error) => {
                    &&& after matches Err(IndexedLogValidationError::Log(failure))
                    &&& failure == LogFileValidationError::Io(error)
                },
                _ => after matches Ok(next) && next == self.at(PairStage::SeekIndex(scanned)),
            },
            PairStage::SeekIndex(scanned) => match reply {
                FileReply::Failed(error) => {
                    &&& after matches Err(IndexedLogValidationError::Index(failure))
                    &&& failure == IndexFileValidationError::Io(error)
                },
                _ => after matches Ok(next) && next == self.at(PairStage::Finished(scanned)),
            },
            _ => false,
        }
    }

    /// What the outcome of the scan does.
    pub open spec fn scanned(
        self,
        result: Result<ScanState, RecordReadError>,
        after: PairRecoveryResult,
    ) -> bool {
        &&& self.stage matches PairStage::Log(log)
        &&& match after {
            Err(IndexedLogValidationError::Log(error)) => log.scanned(result, Err(error)),
            Ok(next) => {
                &&& next.stage matches PairStage::Log(next_log)
                &&& next == self.at(PairStage::Log(next_log))
                &&& log.scanned(result, Ok(next_log))
            },
            _ => false,
        }
    }
}

#[allow(inconsistent_fields)]
enum Stage<F> {
    OpenLog,
    OpenIndex { log: F },
    Log { log: LogRecovery<F>, index: F },
    Index { log: ValidatedLogFile<F>, index: IndexRecovery<F> },
    SeekLog { log: ValidatedLogFile<F>, index: F },
    SeekIndex { log: ValidatedLogFile<F>, index: F },
    Finished { log: ValidatedLogFile<F>, index: F },
}

/// A recovery of a log and its index, between two operations.
///
/// The owner of the storage performs [`request`](Self::request) and hands its outcome back, until
/// no request is left. An error gives up both files; repairs that were completed before it stay.
pub struct PairRecovery<F> {
    file_id: LogFileId,
    last_trusted: Option<RecordEndLocation>,
    stage: Stage<F>,
}

impl<F> View for PairRecovery<F> {
    type V = PairRecoveryState;

    closed spec fn view(&self) -> PairRecoveryState {
        PairRecoveryState {
            file_id: self.file_id,
            last_trusted: self.last_trusted,
            stage: match self.stage {
                Stage::OpenLog => PairStage::OpenLog,
                Stage::OpenIndex { .. } => PairStage::OpenIndex,
                Stage::Log { log, .. } => PairStage::Log(log@),
                Stage::Index { log, index } => PairStage::Index(log@, index@),
                Stage::SeekLog { log, .. } => PairStage::SeekLog(log@),
                Stage::SeekIndex { log, .. } => PairStage::SeekIndex(log@),
                Stage::Finished { log, .. } => PairStage::Finished(log@),
            },
        }
    }
}

impl IndexedLogValidator {
    /// Begins to recover the pair of `file_id`.
    ///
    /// `last_trusted` is the end that a checkpoint certified within this file. A log without its
    /// trusted entry in the index is an error; without a trusted end the index is rebuilt.
    pub fn validate<F>(file_id: LogFileId, last_trusted: Option<RecordEndLocation>) -> (recovery:
        PairRecovery<F>)
        ensures
            recovery.wf(),
            recovery@ == (PairRecoveryState { file_id, last_trusted, stage: PairStage::OpenLog }),
    {
        PairRecovery { file_id, last_trusted, stage: Stage::OpenLog }
    }
}

impl<F> PairRecovery<F> {
    pub closed spec fn wf(self) -> bool {
        &&& self@.wf()
        &&& match self.stage {
            Stage::OpenLog | Stage::OpenIndex { .. } => true,
            Stage::Log { log, .. } => log.wf(),
            Stage::Index { log, .. } => log.wf(),
            Stage::SeekLog { log, .. } => log.wf(),
            Stage::SeekIndex { log, .. } => log.wf(),
            Stage::Finished { log, .. } => log.wf(),
        }
    }

    /// What [`wf`](Self::wf) says of the state.
    pub proof fn lemma_wf(self)
        requires
            self.wf(),
        ensures
            self@.wf(),
    {
    }

    /// The opened log.
    pub closed spec fn spec_log(self) -> Option<F> {
        match self.stage {
            Stage::OpenLog => None,
            Stage::OpenIndex { log } => Some(log),
            Stage::Log { log, .. } => Some(log.spec_file()),
            Stage::Index { log, .. } => Some(log.spec_file()),
            Stage::SeekLog { log, .. } => Some(log.spec_file()),
            Stage::SeekIndex { log, .. } => Some(log.spec_file()),
            Stage::Finished { log, .. } => Some(log.spec_file()),
        }
    }

    /// The opened index.
    pub closed spec fn spec_index(self) -> Option<F> {
        match self.stage {
            Stage::OpenLog => None,
            Stage::OpenIndex { .. } => None,
            Stage::Log { index, .. } => Some(index),
            Stage::Index { index, .. } => Some(index.spec_file()),
            Stage::SeekLog { index, .. } => Some(index),
            Stage::SeekIndex { index, .. } => Some(index),
            Stage::Finished { index, .. } => Some(index),
        }
    }

    pub fn request(&self) -> (request: PairRequest)
        requires
            self.wf(),
        ensures
            request == self@.request(),
    {
        match &self.stage {
            Stage::OpenLog => PairRequest::OpenLog,
            Stage::OpenIndex { .. } => PairRequest::OpenIndex,
            Stage::Log { log, .. } => {
                match log.request() {
                    LogRequest::File(request) => PairRequest::Log(request),
                    _ => PairRequest::ScanLog,
                }
            },
            Stage::Index { index, .. } => {
                match index.request() {
                    Some(request) => PairRequest::Index(request),
                    None => PairRequest::Finished,
                }
            },
            Stage::SeekLog { log, .. } => PairRequest::Log(
                FileRequest::Seek(RecordEndLocation::offset_of(log.validated_end())),
            ),
            Stage::SeekIndex { log, .. } => {
                proof {
                    log.lemma_wf();
                    log@.lemma_validated_offset();
                }
                let count: u64 = RecordEndLocation::count_of(log.validated_end());
                PairRequest::Index(FileRequest::Seek(count * INDEX_ENTRY_LEN))
            },
            Stage::Finished { .. } => PairRequest::Finished,
        }
    }

    /// Takes the opened file, or the failure to open it.
    pub fn opened(self, result: Result<F, StorageError>) -> (after: Result<
        PairRecovery<F>,
        IndexedLogValidationError,
    >)
        requires
            self.wf(),
            self@.stage is OpenLog || self@.stage is OpenIndex,
        ensures
            match after {
                Ok(next) => {
                    &&& next.wf()
                    &&& result matches Ok(file) && if self@.stage is OpenLog {
                        next.spec_log() == Some(file)
                    } else {
                        next.spec_log() == self.spec_log() && next.spec_index() == Some(file)
                    }
                    &&& self@.opened(None, Ok(next@))
                },
                Err(error) => self@.opened(
                    match result {
                        Ok(_) => None,
                        Err(failure) => Some(failure),
                    },
                    Err(error),
                ),
            },
    {
        let PairRecovery { file_id, last_trusted, stage } = self;
        let file = match result {
            Ok(file) => file,
            Err(error) => {
                return Err(IndexedLogValidationError::Storage(error));
            },
        };
        let stage = match stage {
            Stage::OpenLog => Stage::OpenIndex { log: file },
            Stage::OpenIndex { log } => {
                match LogFileValidator::validate(log, file_id, last_trusted) {
                    Ok(log) => Stage::Log { log, index: file },
                    Err(error) => {
                        return Err(IndexedLogValidationError::Log(error));
                    },
                }
            },
            other => other,
        };
        Ok(PairRecovery { file_id, last_trusted, stage })
    }

    /// The log, to perform an operation or the scan on.
    pub fn log_file(&mut self) -> (file: &mut F)
        requires
            old(self).spec_log() is Some,
        ensures
            *file == old(self).spec_log()->0,
            final(self)@ == old(self)@,
            old(self).wf() ==> final(self).wf(),
            final(self).spec_log() == Some(*final(file)),
            final(self).spec_index() == old(self).spec_index(),
    {
        match &mut self.stage {
            Stage::OpenIndex { log } => log,
            Stage::Log { log, .. } => log.file(),
            Stage::Index { log, .. } => log.file(),
            Stage::SeekLog { log, .. } => log.file(),
            Stage::SeekIndex { log, .. } => log.file(),
            Stage::Finished { log, .. } => log.file(),
            Stage::OpenLog => vstd::pervasive::unreached(),
        }
    }

    /// The index to perform an operation on, and the bytes that a write offers.
    pub fn index_destination(&mut self) -> (parts: (&mut F, &[u8]))
        requires
            old(self).wf(),
            old(self).spec_index() is Some,
        ensures
            *parts.0 == old(self).spec_index()->0,
            parts.1@ == old(self)@.offered(),
            final(self)@ == old(self)@,
            final(self).wf(),
            final(self).spec_log() == old(self).spec_log(),
            final(self).spec_index() == Some(*final(parts.0)),
    {
        match &mut self.stage {
            Stage::Log { index, .. } => (index, &[]),
            Stage::Index { index, .. } => index.destination(),
            Stage::SeekLog { index, .. } => (index, &[]),
            Stage::SeekIndex { index, .. } => (index, &[]),
            Stage::Finished { index, .. } => (index, &[]),
            _ => vstd::pervasive::unreached(),
        }
    }

    /// Takes the outcome of the outstanding file operation.
    pub fn resume(self, reply: FileReply) -> (result: Result<
        PairRecovery<F>,
        IndexedLogValidationError,
    >)
        requires
            self.wf(),
            self@.is_answered_by(reply),
        ensures
            match result {
                Ok(next) => {
                    &&& next.wf()
                    &&& next.spec_log() == self.spec_log()
                    &&& next.spec_index() == self.spec_index()
                    &&& self@.resumed(reply, Ok(next@))
                },
                Err(error) => self@.resumed(reply, Err(error)),
            },
    {
        let PairRecovery { file_id, last_trusted, stage } = self;
        let stage = match stage {
            Stage::Log { log, index } => {
                let log = match log.resume(reply) {
                    Ok(log) => log,
                    Err(error) => {
                        return Err(IndexedLogValidationError::Log(error));
                    },
                };
                proof {
                    log.lemma_wf();
                }
                match log.request() {
                    LogRequest::Finished => {
                        let log = log.finish();
                        proof {
                            log.lemma_wf();
                        }
                        match IndexFileValidator::validate(index, last_trusted, log.suffix_ends()) {
                            Ok(index) => Stage::Index { log, index },
                            Err(error) => {
                                return Err(IndexedLogValidationError::Index(error));
                            },
                        }
                    },
                    _ => Stage::Log { log, index },
                }
            },
            Stage::Index { log, index } => {
                let index = match index.resume(reply) {
                    Ok(index) => index,
                    Err(error) => {
                        return Err(IndexedLogValidationError::Index(error));
                    },
                };
                match index.request() {
                    Some(_) => Stage::Index { log, index },
                    None => {
                        let index = index.finish();
                        proof {
                            log.lemma_wf();
                            log@.lemma_validated_offset();
                        }
                        let count: u64 = RecordEndLocation::count_of(log.validated_end());
                        if count == RECORDS_PER_FILE {
                            Stage::Finished { log, index }
                        } else {
                            Stage::SeekLog { log, index }
                        }
                    },
                }
            },
            Stage::SeekLog { log, index } => {
                if let FileReply::Failed(error) = reply {
                    return Err(IndexedLogValidationError::Log(LogFileValidationError::Io(error)));
                }
                Stage::SeekIndex { log, index }
            },
            Stage::SeekIndex { log, index } => {
                if let FileReply::Failed(error) = reply {
                    return Err(
                        IndexedLogValidationError::Index(IndexFileValidationError::Io(error)),
                    );
                }
                Stage::Finished { log, index }
            },
            other => other,
        };
        Ok(PairRecovery { file_id, last_trusted, stage })
    }

    /// The scan to run over the log from its cursor on.
    ///
    /// A trusted record that is the last possible one of its stream has no successor to scan for.
    pub fn scan(&self) -> (scan: RecordScan)
        requires
            self.wf(),
            self@.request() == PairRequest::ScanLog,
            self@.last_trusted matches Some(end) ==> end.record_id.has_next(),
        ensures
            scan.wf(),
            scan@.file_id == self@.file_id,
            scan@.last_trusted == self@.last_trusted,
            scan@ == ScanState::initial(
                self@.file_id,
                self@.last_trusted,
                self@.stage->Log_0.stage->Scan_file_length,
            ),
    {
        match &self.stage {
            Stage::Log { log, .. } => log.scan(),
            _ => vstd::pervasive::unreached(),
        }
    }

    /// Takes the findings of the scan, or the decoder's failure.
    pub fn scanned(self, result: Result<LogScanResult, RecordReadError>) -> (after: Result<
        PairRecovery<F>,
        IndexedLogValidationError,
    >)
        requires
            self.wf(),
            self@.request() == PairRequest::ScanLog,
            result matches Ok(findings) ==> findings.wf() && findings@.file_id == self@.file_id
                && findings@.last_trusted == self@.last_trusted,
        ensures
            match (result, after) {
                (Ok(findings), Ok(next)) => {
                    &&& next.wf()
                    &&& next.spec_log() == self.spec_log()
                    &&& next.spec_index() == self.spec_index()
                    &&& self@.scanned(Ok(findings@), Ok(next@))
                },
                (Err(error), Err(failure)) => self@.scanned(Err(error), Err(failure)),
                _ => false,
            },
    {
        let PairRecovery { file_id, last_trusted, stage } = self;
        match stage {
            Stage::Log { log, index } => {
                match log.scanned(result) {
                    Ok(log) => {
                        proof {
                            log.lemma_wf();
                        }
                        Ok(PairRecovery { file_id, last_trusted, stage: Stage::Log { log, index } })
                    },
                    Err(error) => Err(IndexedLogValidationError::Log(error)),
                }
            },
            _ => vstd::pervasive::unreached(),
        }
    }

    /// The recovered pair. A full file's handles are closed.
    pub fn finish(self) -> (pair: ValidatedFilePair<F>)
        requires
            self.wf(),
            self@.stage is Finished,
        ensures
            pair.is_recovery_of(self@.file_id, self@.last_trusted),
            ({
                let scanned = self@.stage->Finished_0;
                if scanned.count() == RECORDS_PER_FILE {
                    &&& pair matches ValidatedFilePair::Complete { end }
                    &&& scanned.validated_end() == Some(end)
                } else {
                    &&& pair matches ValidatedFilePair::Partial { end, log, index }
                    &&& end == scanned.validated_end()
                    &&& Some(log) == self.spec_log()
                    &&& Some(index) == self.spec_index()
                }
            }),
    {
        match self.stage {
            Stage::Finished { log, index } => {
                proof {
                    log.lemma_wf();
                    log@.lemma_validated_offset();
                    log@.lemma_extent();
                }
                let end = log.validated_end();
                let count: u64 = RecordEndLocation::count_of(end);
                match end {
                    Some(end) if count == RECORDS_PER_FILE => ValidatedFilePair::Complete { end },
                    end => ValidatedFilePair::Partial { end, log: log.into_inner(), index },
                }
            },
            _ => vstd::pervasive::unreached(),
        }
    }
}

} // verus!
