use vstd::prelude::*;

use crate::file::{FileReply, FileRequest};
use crate::location::{LogFileId, RecordEndLocation};
use crate::record::{RecordReadError, MAX_RECORD_LEN, MIN_RECORD_LEN};
use crate::validation::record_scan::{self, LogScanResult, RecordScan, ScanPhase, ScanState};
use crate::validation::{LogFileValidationError, ValidatedLogFile};

verus! {

/// Checks the records of a log file behind a trusted prefix and removes what cannot be kept.
pub struct LogFileValidator;

/// What the owner of the log file does next.
#[derive(Clone, Copy, Debug, PartialEq, Eq, Structural)]
pub enum LogRequest {
    /// Perform one operation on the file.
    File(FileRequest),
    /// Run the scan over the file from its cursor on.
    Scan,
    /// Nothing: recovery has finished.
    Finished,
}

/// How far a recovery of a log file has come.
#[verifier::ext_equal]
pub enum LogStage {
    ReadLength,
    Seek { file_length: u64 },
    Scan { file_length: u64 },
    Truncate(ScanState),
    Synchronize(ScanState),
    Finished(ScanState),
}

/// What a recovery of a log file has to do and how far it has come.
#[verifier::ext_equal]
pub struct LogRecoveryState {
    pub file_id: LogFileId,
    pub last_trusted: Option<RecordEndLocation>,
    pub stage: LogStage,
}

impl LogRecoveryState {
    /// Offset of the first byte behind the trusted prefix.
    pub open spec fn start(self) -> int {
        RecordEndLocation::offset(self.last_trusted)
    }

    /// Whether `scanned` are the findings of a scan of this file behind its trusted prefix.
    pub open spec fn is_scanned_by(self, scanned: ScanState) -> bool {
        &&& scanned.wf()
        &&& scanned.phase is Finished
        &&& scanned.file_id == self.file_id
        &&& scanned.last_trusted == self.last_trusted
    }

    pub open spec fn wf(self) -> bool {
        &&& self.last_trusted matches Some(end) ==> self.file_id.assigns(end.record_id)
        &&& match self.stage {
            LogStage::ReadLength => true,
            LogStage::Seek { file_length } | LogStage::Scan { file_length } => {
                &&& record_scan::is_trusted_start(self.file_id, self.last_trusted)
                &&& self.start() <= file_length
            },
            LogStage::Truncate(scanned) => {
                self.is_scanned_by(scanned) && scanned.phase != ScanPhase::Finished(None)
            },
            LogStage::Synchronize(scanned) | LogStage::Finished(scanned) => {
                self.is_scanned_by(scanned)
            },
        }
    }

    /// The outstanding request.
    pub open spec fn request(self) -> LogRequest {
        match self.stage {
            LogStage::ReadLength => LogRequest::File(FileRequest::Length),
            LogStage::Seek { .. } => LogRequest::File(FileRequest::Seek(self.start() as u64)),
            LogStage::Scan { .. } => LogRequest::Scan,
            LogStage::Truncate(scanned) => LogRequest::File(
                FileRequest::SetLen(RecordEndLocation::offset(scanned.validated_end()) as u64),
            ),
            LogStage::Synchronize(_) => LogRequest::File(FileRequest::SyncData),
            LogStage::Finished(_) => LogRequest::Finished,
        }
    }

    /// Whether `reply` is an outcome of the outstanding file operation.
    pub open spec fn is_answered_by(self, reply: FileReply) -> bool {
        self.request() matches LogRequest::File(request) && request.is_answered_by(reply, 0)
    }

    pub open spec fn at(self, stage: LogStage) -> LogRecoveryState {
        LogRecoveryState { stage, ..self }
    }

    /// What an outcome of the outstanding file operation does.
    pub open spec fn resumed(
        self,
        reply: FileReply,
        after: Result<LogRecoveryState, LogFileValidationError>,
    ) -> bool {
        match (self.stage, reply) {
            (_, FileReply::Failed(error)) => {
                after matches Err(failure) && failure == LogFileValidationError::Io(error)
            },
            (LogStage::ReadLength, FileReply::Length(length)) => {
                if self.start() <= length && record_scan::is_trusted_start(
                    self.file_id,
                    self.last_trusted,
                ) {
                    after matches Ok(next) && next == self.at(
                        LogStage::Seek { file_length: length },
                    )
                } else {
                    &&& after matches Err(LogFileValidationError::InvalidStart(reason))
                    &&& reason@ == "position is outside the possible trusted record extent"@
                }
            },
            (LogStage::Seek { file_length }, _) => {
                after matches Ok(next) && next == self.at(LogStage::Scan { file_length })
            },
            (LogStage::Truncate(scanned), _) => {
                after matches Ok(next) && next == self.at(LogStage::Synchronize(scanned))
            },
            (LogStage::Synchronize(scanned), _) => {
                after matches Ok(next) && next == self.at(LogStage::Finished(scanned))
            },
            _ => false,
        }
    }

    /// What the outcome of the scan does: only a diagnosed tail is cut off.
    pub open spec fn scanned(
        self,
        result: Result<ScanState, RecordReadError>,
        after: Result<LogRecoveryState, LogFileValidationError>,
    ) -> bool {
        match result {
            Err(error) => {
                after matches Err(failure) && failure == LogFileValidationError::Read(error)
            },
            Ok(scanned) => {
                &&& after matches Ok(next)
                &&& next == self.at(
                    if scanned.phase == ScanPhase::Finished(None) {
                        LogStage::Synchronize(scanned)
                    } else {
                        LogStage::Truncate(scanned)
                    },
                )
            },
        }
    }
}

enum Stage {
    ReadLength,
    Seek { file_length: u64 },
    Scan { file_length: u64 },
    Truncate(LogScanResult),
    Synchronize(LogScanResult),
    Finished(LogScanResult),
}

/// A recovery of an owned log file, between two operations on the file.
///
/// The owner performs [`request`](Self::request) on [`file`](Self::file) and hands the outcome to
/// [`resume`](Self::resume), or runs [`scan`](Self::scan) and hands its findings to
/// [`scanned`](Self::scanned), until no request is left. An error gives up the file.
pub struct LogRecovery<F> {
    file: F,
    file_id: LogFileId,
    last_trusted: Option<RecordEndLocation>,
    stage: Stage,
}

impl<F> View for LogRecovery<F> {
    type V = LogRecoveryState;

    closed spec fn view(&self) -> LogRecoveryState {
        LogRecoveryState {
            file_id: self.file_id,
            last_trusted: self.last_trusted,
            stage: match self.stage {
                Stage::ReadLength => LogStage::ReadLength,
                Stage::Seek { file_length } => LogStage::Seek { file_length },
                Stage::Scan { file_length } => LogStage::Scan { file_length },
                Stage::Truncate(findings) => LogStage::Truncate(findings@),
                Stage::Synchronize(findings) => LogStage::Synchronize(findings@),
                Stage::Finished(findings) => LogStage::Finished(findings@),
            },
        }
    }
}

impl LogFileValidator {
    /// Begins to recover a log file.
    ///
    /// `last_trusted` is the end that a checkpoint certified for this file. The bytes up to it are
    /// not read again. The records behind it have to belong to the file's stream and to continue
    /// its sequence; the file is cut off behind the last one that does, and synchronized.
    pub fn validate<F>(
        file: F,
        file_id: LogFileId,
        last_trusted: Option<RecordEndLocation>,
    ) -> (result: Result<LogRecovery<F>, LogFileValidationError>)
        ensures
            match result {
                Ok(recovery) => {
                    &&& last_trusted matches Some(end) ==> file_id.assigns(end.record_id)
                    &&& recovery.wf()
                    &&& recovery@ == (LogRecoveryState {
                        file_id,
                        last_trusted,
                        stage: LogStage::ReadLength,
                    })
                    &&& recovery.spec_file() == file
                },
                Err(error) => {
                    &&& last_trusted matches Some(end) && !file_id.assigns(end.record_id)
                    &&& error matches LogFileValidationError::InvalidStart(reason)
                    &&& reason@ == "trusted endpoint belongs to another file"@
                },
            },
    {
        if let Some(end) = last_trusted {
            let end_file = end.log_file_id();
            if end_file != file_id {
                proof {
                    if file_id.assigns(end.record_id) {
                        file_id.a_record_has_one_file(end_file, end.record_id);
                    }
                }
                return Err(
                    LogFileValidationError::InvalidStart("trusted endpoint belongs to another file"),
                );
            }
        }
        Ok(LogRecovery { file, file_id, last_trusted, stage: Stage::ReadLength })
    }
}

impl<F> LogRecovery<F> {
    pub closed spec fn spec_file(self) -> F {
        self.file
    }

    pub closed spec fn wf(self) -> bool {
        &&& self@.wf()
        &&& match self.stage {
            Stage::Truncate(findings) => findings.wf(),
            Stage::Synchronize(findings) => findings.wf(),
            Stage::Finished(findings) => findings.wf(),
            _ => true,
        }
    }

    /// What [`wf`](Self::wf) says of the state.
    pub proof fn lemma_wf(self)
        requires
            self.wf(),
        ensures
            self@.wf(),
    {
    }

    pub fn request(&self) -> (request: LogRequest)
        requires
            self.wf(),
        ensures
            request == self@.request(),
    {
        match &self.stage {
            Stage::ReadLength => LogRequest::File(FileRequest::Length),
            Stage::Seek { .. } => LogRequest::File(
                FileRequest::Seek(RecordEndLocation::offset_of(self.last_trusted)),
            ),
            Stage::Scan { .. } => LogRequest::Scan,
            Stage::Truncate(findings) => LogRequest::File(
                FileRequest::SetLen(RecordEndLocation::offset_of(findings.validated_end())),
            ),
            Stage::Synchronize(_) => LogRequest::File(FileRequest::SyncData),
            Stage::Finished(_) => LogRequest::Finished,
        }
    }

    /// The file to perform the request on.
    pub fn file(&mut self) -> (file: &mut F)
        ensures
            *file == old(self).spec_file(),
            final(self)@ == old(self)@,
            old(self).wf() ==> final(self).wf(),
            final(self).spec_file() == *final(file),
    {
        &mut self.file
    }

    /// Takes the outcome of the outstanding file operation.
    pub fn resume(self, reply: FileReply) -> (result: Result<
        LogRecovery<F>,
        LogFileValidationError,
    >)
        requires
            self.wf(),
            self@.is_answered_by(reply),
        ensures
            match result {
                Ok(next) => {
                    &&& next.wf()
                    &&& next.spec_file() == self.spec_file()
                    &&& self@.resumed(reply, Ok(next@))
                },
                Err(error) => self@.resumed(reply, Err(error)),
            },
    {
        let LogRecovery { file, file_id, last_trusted, stage } = self;
        if let FileReply::Failed(error) = reply {
            return Err(LogFileValidationError::Io(error));
        }
        let stage = match stage {
            Stage::ReadLength => {
                let file_length: u64 = match reply {
                    FileReply::Length(length) => length,
                    _ => 0,
                };
                let start_position: u64 = RecordEndLocation::offset_of(last_trusted);
                let trusted_count: u64 = RecordEndLocation::count_of(last_trusted);
                if start_position > file_length || start_position < trusted_count * MIN_RECORD_LEN
                    || start_position > trusted_count * MAX_RECORD_LEN {
                    return Err(
                        LogFileValidationError::InvalidStart(
                            "position is outside the possible trusted record extent",
                        ),
                    );
                }
                Stage::Seek { file_length }
            },
            Stage::Seek { file_length } => Stage::Scan { file_length },
            Stage::Truncate(findings) => Stage::Synchronize(findings),
            Stage::Synchronize(findings) => Stage::Finished(findings),
            other => other,
        };
        Ok(LogRecovery { file, file_id, last_trusted, stage })
    }

    /// The scan to run over the file from its cursor on.
    ///
    /// A trusted record that is the last possible one of its stream has no successor to scan for.
    pub fn scan(&self) -> (scan: RecordScan)
        requires
            self.wf(),
            self@.stage is Scan,
            self@.last_trusted matches Some(end) ==> end.record_id.has_next(),
        ensures
            scan.wf(),
            scan@ == ScanState::initial(
                self@.file_id,
                self@.last_trusted,
                self@.stage->Scan_file_length,
            ),
    {
        let file_length: u64 = match self.stage {
            Stage::Scan { file_length } => file_length,
            _ => 0,
        };
        RecordScan::new(self.file_id, self.last_trusted, file_length)
    }

    /// Takes the findings of the scan, or the decoder's failure.
    pub fn scanned(self, result: Result<LogScanResult, RecordReadError>) -> (after: Result<
        LogRecovery<F>,
        LogFileValidationError,
    >)
        requires
            self.wf(),
            self@.stage is Scan,
            result matches Ok(findings) ==> findings.wf() && findings@.file_id == self@.file_id
                && findings@.last_trusted == self@.last_trusted,
        ensures
            match (result, after) {
                (Ok(findings), Ok(next)) => {
                    &&& next.wf()
                    &&& next.spec_file() == self.spec_file()
                    &&& self@.scanned(Ok(findings@), Ok(next@))
                },
                (Err(error), Err(failure)) => self@.scanned(Err(error), Err(failure)),
                _ => false,
            },
    {
        let LogRecovery { file, file_id, last_trusted, stage } = self;
        match result {
            Err(error) => Err(LogFileValidationError::Read(error)),
            Ok(findings) => {
                proof {
                    findings.lemma_wf();
                }
                let stage = if findings.tail_error().is_some() {
                    Stage::Truncate(findings)
                } else {
                    Stage::Synchronize(findings)
                };
                Ok(LogRecovery { file, file_id, last_trusted, stage })
            },
        }
    }

    /// The recovered and synchronized file with the findings.
    pub fn finish(self) -> (validated: ValidatedLogFile<F>)
        requires
            self.wf(),
            self@.stage is Finished,
        ensures
            validated.wf(),
            validated@ == self@.stage->Finished_0,
            validated.spec_file() == self.spec_file(),
    {
        match self.stage {
            Stage::Finished(findings) => ValidatedLogFile::new(self.file, findings),
            _ => vstd::pervasive::unreached(),
        }
    }
}

} // verus!
