use vstd::prelude::*;

use crate::file::{FileReply, FileRequest};
use crate::index_entry;
use crate::index_entry::INDEX_ENTRY_LEN;
use crate::index_writer::{IndexWriteError, IndexWriter};
use crate::indexed_log_validator::handover::{
    CompletedHandover, HandoverStage, HandoverState, WriterHandover,
};
use crate::indexed_log_validator::suffix_scan::{SuffixFindings, SuffixScan, SuffixScanState};
use crate::indexed_log_validator::validator_state::{
    self, ValidationResult, ValidatorStage, ValidatorState,
};
use crate::indexed_log_validator::{LogValidationError, LogValidationReport};
use crate::io_error::IoError;
use crate::location::{LogFileId, LogFilePosition, RecordEndLocation, RECORDS_PER_FILE};
use crate::output::{OutputPhase, OutputState};
use crate::record::{RecordReadError, MAX_RECORD_LEN, MIN_RECORD_LEN};
use crate::storage::StorageError;
use crate::validation::{LogTailError, PairRequest};

verus! {

/// Validates an owned log and index behind a trusted end and repairs them on demand.
///
/// [`validate`](Self::validate) changes no byte. [`repair_index`](Self::repair_index) rewrites
/// wrong or missing index entries, and only
/// [`truncate_invalid_tail`](Self::truncate_invalid_tail) removes bytes of the log. Each operation
/// hands out requests, which the owner performs on [`log`](Self::log) or
/// [`index_destination`](Self::index_destination) and answers through [`resume`](Self::resume), or
/// through [`scanned`](Self::scanned) after running [`scan`](Self::scan).
///
/// Until an operation has completed successfully every other one is refused, and a failed
/// operation makes the validator unusable.
pub struct IndexedLogValidator<F> {
    file_id: LogFileId,
    log: F,
    index: F,
    start: Option<RecordEndLocation>,
    trusted_records: u64,
    ends: Vec<u64>,
    index_bytes: Vec<u8>,
    draft: Option<LogValidationReport>,
    report: Option<LogValidationReport>,
    log_length: u64,
    index_length: u64,
    index_ready: bool,
    log_ready: bool,
    repair: IndexWriter<()>,
    stage: ValidatorStage,
}

impl<F> View for IndexedLogValidator<F> {
    type V = ValidatorState;

    closed spec fn view(&self) -> ValidatorState {
        ValidatorState {
            file_id: self.file_id,
            start: self.start,
            stage: self.stage,
            index_bytes: self.index_bytes@,
            ends: self.ends@,
            draft: match self.draft {
                None => None,
                Some(draft) => Some(draft@),
            },
            report: match self.report {
                None => None,
                Some(report) => Some(report@),
            },
            log_length: self.log_length,
            index_length: self.index_length,
            index_ready: self.index_ready,
            log_ready: self.log_ready,
            output: self.repair@,
        }
    }
}

/// A pair whose trusted end was checked and whose files are being opened, the log first.
pub struct PairOpening<F> {
    file_id: LogFileId,
    start: Option<RecordEndLocation>,
    log: Option<F>,
}

impl<F> PairOpening<F> {
    pub closed spec fn spec_file_id(self) -> LogFileId {
        self.file_id
    }

    pub closed spec fn spec_start(self) -> Option<RecordEndLocation> {
        self.start
    }

    /// The opened log.
    pub closed spec fn spec_log(self) -> Option<F> {
        self.log
    }

    /// Whether the trusted end belongs to the file.
    pub open spec fn wf(self) -> bool {
        self.spec_start() matches Some(end) ==> self.spec_file_id().assigns(end.record_id)
    }

    /// The file to open next.
    pub fn request(&self) -> (request: PairRequest)
        ensures
            request == if self.spec_log() is None {
                PairRequest::OpenLog
            } else {
                PairRequest::OpenIndex
            },
    {
        match self.log {
            None => PairRequest::OpenLog,
            Some(_) => PairRequest::OpenIndex,
        }
    }

    /// Takes the opened log. A log that cannot be opened is an error.
    pub fn log_opened(self, result: Result<F, StorageError>) -> (after: Result<
        PairOpening<F>,
        LogValidationError,
    >)
        requires
            self.wf(),
        ensures
            match (result, after) {
                (Ok(log), Ok(next)) => {
                    &&& next.wf()
                    &&& next.spec_file_id() == self.spec_file_id()
                    &&& next.spec_start() == self.spec_start()
                    &&& next.spec_log() == Some(log)
                },
                (Err(error), Err(failure)) => failure == LogValidationError::Open(error),
                _ => false,
            },
    {
        match result {
            Ok(log) => Ok(
                PairOpening { file_id: self.file_id, start: self.start, log: Some(log) },
            ),
            Err(error) => Err(LogValidationError::Open(error)),
        }
    }

    /// Takes the opened index.
    pub fn index_opened(self, result: Result<F, StorageError>) -> (after: Result<
        IndexedLogValidator<F>,
        LogValidationError,
    >)
        requires
            self.wf(),
            self.spec_log() is Some,
        ensures
            match (result, after) {
                (Ok(index), Ok(validator)) => {
                    &&& validator.wf()
                    &&& validator@ == ValidatorState::initial(
                        self.spec_file_id(),
                        self.spec_start(),
                    )
                    &&& self.spec_log() == Some(validator.spec_log())
                    &&& validator.spec_index() == index
                },
                (Err(error), Err(failure)) => failure == LogValidationError::Open(error),
                _ => false,
            },
    {
        match result {
            Ok(index) => {
                let validator = IndexedLogValidator {
                    file_id: self.file_id,
                    log: self.log.unwrap(),
                    index,
                    start: self.start,
                    trusted_records: RecordEndLocation::count_of(self.start),
                    ends: Vec::new(),
                    index_bytes: Vec::new(),
                    draft: None,
                    report: None,
                    log_length: 0,
                    index_length: 0,
                    index_ready: false,
                    log_ready: false,
                    repair: IndexWriter::with_file(()),
                    stage: ValidatorStage::Idle,
                };
                assert(validator@ =~= ValidatorState::initial(self.file_id, self.start));
                Ok(validator)
            },
            Err(error) => Err(LogValidationError::Open(error)),
        }
    }
}

impl<F> IndexedLogValidator<F> {
    /// Begins to open the pair of `file_id`.
    ///
    /// `start` is the last trusted end in this file; both the records and the index entries up to
    /// it are certified. Without it everything is validated.
    pub fn open(file_id: LogFileId, start: Option<RecordEndLocation>) -> (result: Result<
        PairOpening<F>,
        LogValidationError,
    >)
        ensures
            match result {
                Ok(opening) => {
                    &&& opening.wf()
                    &&& opening.spec_file_id() == file_id
                    &&& opening.spec_start() == start
                    &&& opening.spec_log() is None
                },
                Err(error) => {
                    &&& start matches Some(end) && !file_id.assigns(end.record_id)
                    &&& error matches LogValidationError::InvalidStart(reason)
                    &&& reason@ == "endpoint belongs to another file"@
                },
            },
    {
        if let Some(end) = start {
            let end_file = end.log_file_id();
            if end_file != file_id {
                proof {
                    if file_id.assigns(end.record_id) {
                        file_id.a_record_has_one_file(end_file, end.record_id);
                    }
                }
                return Err(LogValidationError::InvalidStart("endpoint belongs to another file"));
            }
        }
        Ok(PairOpening { file_id, start, log: None })
    }

    pub closed spec fn spec_log(self) -> F {
        self.log
    }

    pub closed spec fn spec_index(self) -> F {
        self.index
    }

    pub closed spec fn wf(self) -> bool {
        self@.wf() && self.trusted_records == self@.trusted_count()
    }

    /// What [`wf`](Self::wf) says of the state.
    pub proof fn lemma_wf(self)
        requires
            self.wf(),
        ensures
            self@.wf(),
    {
    }

    /// The findings of the validation, also after a repair has failed.
    pub fn report(&self) -> (report: Option<&LogValidationReport>)
        ensures
            match report {
                None => self@.report is None,
                Some(report) => self@.report == Some(report@),
            },
    {
        self.report.as_ref()
    }

    /// Gives both files back without validating, repairing or synchronizing them.
    pub fn into_inner(self) -> (files: (F, F))
        ensures
            files == (self.spec_log(), self.spec_index()),
    {
        (self.log, self.index)
    }

    /// The log to perform a request on.
    pub fn log(&mut self) -> (log: &mut F)
        ensures
            *log == old(self).spec_log(),
            final(self)@ == old(self)@,
            old(self).wf() ==> final(self).wf(),
            final(self).spec_log() == *final(log),
            final(self).spec_index() == old(self).spec_index(),
    {
        &mut self.log
    }

    /// The index to perform a request on, and the bytes that a write offers.
    pub fn index_destination(&mut self) -> (parts: (&mut F, &[u8]))
        requires
            old(self).wf(),
        ensures
            *parts.0 == old(self).spec_index(),
            parts.1@ == old(self)@.output.unsent(),
            final(self)@ == old(self)@,
            final(self).wf(),
            final(self).spec_log() == old(self).spec_log(),
            final(self).spec_index() == *final(parts.0),
    {
        (&mut self.index, self.repair.unsent())
    }

    fn index_limit(&self) -> (limit: u64)
        ensures
            limit == self@.index_limit(),
            limit <= INDEX_ENTRY_LEN * RECORDS_PER_FILE,
    {
        let capacity: u64 = RECORDS_PER_FILE * INDEX_ENTRY_LEN;
        if self.index_length <= capacity {
            self.index_length
        } else {
            capacity
        }
    }

    fn matching_end(&self) -> (offset: u64)
        requires
            self.wf(),
            self@.report is Some,
        ensures
            offset == INDEX_ENTRY_LEN * self@.report->0.matching_index_entries,
    {
        match &self.report {
            None => 0,
            Some(report) => report.matching_index_entries() * INDEX_ENTRY_LEN,
        }
    }

    fn valid_length(&self) -> (length: u64)
        requires
            self.wf(),
        ensures
            length == self@.valid_length(),
    {
        let scanned: usize = self.ends.len();
        if scanned == 0 {
            RecordEndLocation::offset_of(self.start)
        } else {
            self.ends[scanned - 1]
        }
    }

    /// The outstanding request.
    pub fn request(&self) -> (request: Option<PairRequest>)
        requires
            self.wf(),
        ensures
            request == self@.request(),
    {
        match self.stage {
            ValidatorStage::Idle | ValidatorStage::Failed => None,
            ValidatorStage::MeasureLog
            | ValidatorStage::RecheckLog
            | ValidatorStage::RepairCheckLog { .. }
            | ValidatorStage::TruncateCheckLog => Some(PairRequest::Log(FileRequest::Length)),
            ValidatorStage::MeasureIndex
            | ValidatorStage::RecheckIndex
            | ValidatorStage::RepairCheckIndex { .. }
            | ValidatorStage::TruncateCheckIndex => Some(PairRequest::Index(FileRequest::Length)),
            ValidatorStage::SeekIndex => Some(PairRequest::Index(FileRequest::Seek(0))),
            ValidatorStage::ReadIndex => Some(
                PairRequest::Index(FileRequest::ReadUpTo(self.index_limit())),
            ),
            ValidatorStage::SeekLog => Some(
                PairRequest::Log(FileRequest::Seek(RecordEndLocation::offset_of(self.start))),
            ),
            ValidatorStage::Scan => Some(PairRequest::ScanLog),
            ValidatorStage::RepairFlushLog { .. } | ValidatorStage::TruncateFlush => Some(
                PairRequest::Log(FileRequest::Flush),
            ),
            ValidatorStage::RepairSetLen { .. } => Some(
                PairRequest::Index(FileRequest::SetLen(self.matching_end())),
            ),
            ValidatorStage::RepairSeek { .. } => Some(
                PairRequest::Index(FileRequest::Seek(self.matching_end())),
            ),
            ValidatorStage::RepairSend { .. } => Some(PairRequest::Index(FileRequest::Write)),
            ValidatorStage::RepairFlush { .. } => Some(PairRequest::Index(FileRequest::Flush)),
            ValidatorStage::TruncateSetLen => Some(
                PairRequest::Log(FileRequest::SetLen(self.valid_length())),
            ),
        }
    }

    fn validated_report(&self) -> (result: Result<(), LogValidationError>)
        ensures
            match result {
                Ok(_) => self@.refusal() is None,
                Err(error) => self@.refusal() == Some(error),
            },
    {
        if self.stage != ValidatorStage::Idle {
            Err(LogValidationError::Unusable)
        } else if self.report.is_none() {
            Err(LogValidationError::NotValidated)
        } else {
            Ok(())
        }
    }

    /// Begins to validate the pair. A validated pair is not validated again.
    pub fn validate(&mut self) -> (result: ValidationResult)
        requires
            old(self).wf(),
        ensures
            final(self).wf(),
            old(self)@.began_validation(final(self)@, result),
            final(self).spec_log() == old(self).spec_log(),
            final(self).spec_index() == old(self).spec_index(),
    {
        if self.stage != ValidatorStage::Idle {
            return Err(LogValidationError::Unusable);
        }
        if self.report.is_some() {
            return Ok(None);
        }
        self.stage = ValidatorStage::MeasureLog;
        Ok(self.request())
    }

    /// Begins to replace the wrong and missing index entries. Matching entries stay as they are.
    pub fn repair_index(&mut self) -> (result: ValidationResult)
        requires
            old(self).wf(),
        ensures
            final(self).wf(),
            old(self)@.began_repair(final(self)@, result),
            final(self).spec_log() == old(self).spec_log(),
            final(self).spec_index() == old(self).spec_index(),
    {
        if let Err(error) = self.validated_report() {
            return Err(error);
        }
        if self.index_ready {
            return Ok(None);
        }
        self.stage = ValidatorStage::RepairCheckLog { truncate: false };
        Ok(self.request())
    }

    /// Begins to remove everything behind the accepted records from the log, after repairing the
    /// index.
    pub fn truncate_invalid_tail(&mut self) -> (result: ValidationResult)
        requires
            old(self).wf(),
        ensures
            final(self).wf(),
            old(self)@.began_truncation(final(self)@, result),
            final(self).spec_log() == old(self).spec_log(),
            final(self).spec_index() == old(self).spec_index(),
    {
        if let Err(error) = self.validated_report() {
            return Err(error);
        }
        if self.log_ready {
            return Ok(None);
        }
        self.stage = if self.index_ready {
            ValidatorStage::TruncateCheckLog
        } else {
            ValidatorStage::RepairCheckLog { truncate: true }
        };
        Ok(self.request())
    }

    fn fail(&mut self, error: LogValidationError) -> (result: ValidationResult)
        requires
            old(self).wf(),
        ensures
            final(self).wf(),
            old(self)@.failed(error, final(self)@, result),
            final(self).spec_log() == old(self).spec_log(),
            final(self).spec_index() == old(self).spec_index(),
    {
        self.stage = ValidatorStage::Failed;
        Err(error)
    }

    /// Takes the outcome of the outstanding file operation.
    pub fn resume(&mut self, reply: FileReply) -> (result: ValidationResult)
        requires
            old(self).wf(),
            old(self)@.is_answered_by(reply),
        ensures
            final(self).wf(),
            old(self)@.resumed(reply, final(self)@, result),
            final(self).spec_log() == old(self).spec_log(),
            final(self).spec_index() == old(self).spec_index(),
    {
        if let ValidatorStage::RepairSend { truncate } = self.stage {
            return match reply {
                FileReply::Accepted(accepted) => self.resume_sending(truncate, Ok(accepted)),
                FileReply::Failed(error) => self.resume_sending(truncate, Err(error)),
                _ => self.resume_sending(truncate, Ok(0)),
            };
        }
        match reply {
            FileReply::Failed(error) => {
                let failure = self.io_error(error);
                self.fail(failure)
            },
            FileReply::Length(length) => self.resume_measuring(length),
            FileReply::Bytes(bytes) => self.resume_reading(bytes),
            _ => self.resume_done(),
        }
    }

    fn io_error(&self, error: IoError) -> (failure: LogValidationError)
        requires
            self.wf(),
        ensures
            failure == self@.io_error(error),
    {
        if let ValidatorStage::RepairFlush { .. } = self.stage {
            return LogValidationError::IndexWrite(IndexWriteError::Io(error));
        }
        match self.request() {
            Some(PairRequest::Log(_)) => LogValidationError::LogIo(error),
            _ => LogValidationError::IndexIo(error),
        }
    }

    fn resume_measuring(&mut self, length: u64) -> (result: ValidationResult)
        requires
            old(self).wf(),
            old(self)@.is_answered_by(FileReply::Length(length)),
        ensures
            final(self).wf(),
            old(self)@.resumed(FileReply::Length(length), final(self)@, result),
            final(self).spec_log() == old(self).spec_log(),
            final(self).spec_index() == old(self).spec_index(),
    {
        match self.stage {
            ValidatorStage::MeasureLog => {
                self.log_length = length;
                self.stage = ValidatorStage::MeasureIndex;
            },
            ValidatorStage::MeasureIndex => {
                let start_position: u64 = RecordEndLocation::offset_of(self.start);
                if start_position > self.log_length || start_position < self.trusted_records
                    * MIN_RECORD_LEN || start_position > self.trusted_records * MAX_RECORD_LEN {
                    return self.fail(
                        LogValidationError::InvalidStart(
                            "position is outside the possible trusted record extent",
                        ),
                    );
                }
                self.index_length = length;
                self.stage = ValidatorStage::SeekIndex;
            },
            ValidatorStage::RecheckLog => {
                if length != self.log_length {
                    return self.fail(LogValidationError::FilesChanged);
                }
                self.stage = ValidatorStage::RecheckIndex;
            },
            ValidatorStage::RecheckIndex => {
                if length != self.index_length {
                    return self.fail(LogValidationError::FilesChanged);
                }
                self.accept_draft();
            },
            ValidatorStage::RepairCheckLog { truncate } => {
                if length != self.log_length {
                    return self.fail(LogValidationError::FilesChanged);
                }
                self.stage = ValidatorStage::RepairCheckIndex { truncate };
            },
            ValidatorStage::RepairCheckIndex { truncate } => {
                if length != self.index_length {
                    return self.fail(LogValidationError::FilesChanged);
                }
                self.stage = ValidatorStage::RepairFlushLog { truncate };
            },
            ValidatorStage::TruncateCheckLog => {
                if length != self.log_length {
                    return self.fail(LogValidationError::FilesChanged);
                }
                self.stage = ValidatorStage::TruncateCheckIndex;
            },
            _ => {
                if length != self.index_length {
                    return self.fail(LogValidationError::FilesChanged);
                }
                self.stage = ValidatorStage::TruncateSetLen;
            },
        }
        Ok(self.request())
    }

    fn accept_draft(&mut self)
        requires
            old(self).wf(),
            old(self)@.stage == ValidatorStage::RecheckIndex,
        ensures
            final(self).wf(),
            final(self)@ == old(self)@.reported(),
            final(self).spec_log() == old(self).spec_log(),
            final(self).spec_index() == old(self).spec_index(),
    {
        let draft = self.draft.take();
        if let Some(report) = &draft {
            self.index_ready = !report.needs_index_repair();
            self.log_ready = report.tail_error().is_none();
        }
        self.report = draft;
        self.stage = ValidatorStage::Idle;
    }

    fn resume_reading(&mut self, bytes: Vec<u8>) -> (result: ValidationResult)
        requires
            old(self).wf(),
            old(self)@.is_answered_by(FileReply::Bytes(bytes)),
        ensures
            final(self).wf(),
            old(self)@.resumed(FileReply::Bytes(bytes), final(self)@, result),
            final(self).spec_log() == old(self).spec_log(),
            final(self).spec_index() == old(self).spec_index(),
    {
        if bytes.len() as u64 != self.index_limit() {
            return self.fail(LogValidationError::FilesChanged);
        }
        let start_position: u64 = RecordEndLocation::offset_of(self.start);
        if !holds_trusted_prefix(bytes.as_slice(), self.trusted_records, start_position) {
            return self.fail(LogValidationError::TrustedIndexUnavailable);
        }
        self.index_bytes = bytes;
        self.stage = ValidatorStage::SeekLog;
        Ok(self.request())
    }

    fn resume_done(&mut self) -> (result: ValidationResult)
        requires
            old(self).wf(),
            old(self)@.is_answered_by(FileReply::Done),
        ensures
            final(self).wf(),
            old(self)@.resumed(FileReply::Done, final(self)@, result),
            final(self).spec_log() == old(self).spec_log(),
            final(self).spec_index() == old(self).spec_index(),
    {
        match self.stage {
            ValidatorStage::SeekIndex => {
                self.stage = ValidatorStage::ReadIndex;
            },
            ValidatorStage::SeekLog => {
                self.stage = ValidatorStage::Scan;
            },
            ValidatorStage::RepairFlushLog { truncate } => {
                self.stage = ValidatorStage::RepairSetLen { truncate };
            },
            ValidatorStage::RepairSetLen { truncate } => {
                self.stage = ValidatorStage::RepairSeek { truncate };
            },
            ValidatorStage::RepairSeek { truncate } => {
                self.begin_sending(truncate);
            },
            ValidatorStage::RepairFlush { truncate } => {
                self.accept_repair(truncate);
            },
            ValidatorStage::TruncateSetLen => {
                self.stage = ValidatorStage::TruncateFlush;
            },
            _ => {
                self.log_length = self.valid_length();
                self.log_ready = true;
                self.stage = ValidatorStage::Idle;
            },
        }
        Ok(self.request())
    }

    fn begin_sending(&mut self, truncate: bool)
        requires
            old(self).wf(),
            old(self)@.stage == (ValidatorStage::RepairSeek { truncate }),
        ensures
            final(self).wf(),
            final(self)@ == old(self)@.sending(truncate),
            final(self).spec_log() == old(self).spec_log(),
            final(self).spec_index() == old(self).spec_index(),
    {
        let matching: u64 = match &self.report {
            None => 0,
            Some(report) => report.matching_index_entries(),
        };
        let first: usize = (matching - self.trusted_records) as usize;
        let mut next: usize = first;
        let mut repair = IndexWriter::with_file(());
        assert(self.ends@.subrange(first as int, first as int) =~= Seq::empty());
        assert(repair@.bytes =~= index_entry::encode(Seq::empty()));
        while next < self.ends.len()
            invariant
                first <= next <= self.ends@.len(),
                self.ends@ == old(self).ends@,
                repair@.wf(),
                repair@.phase == OutputPhase::Idle,
                repair@.bytes == index_entry::encode(
                    self.ends@.subrange(first as int, next as int),
                ),
            decreases self.ends@.len() - next,
        {
            let _ = repair.write(self.ends[next]);
            proof {
                let written = self.ends@.subrange(first as int, next as int);
                index_entry::lemma_encode_push(written, self.ends@[next as int]);
                assert(self.ends@.subrange(first as int, next + 1) =~= written.push(
                    self.ends@[next as int],
                ));
            }
            next = next + 1;
        }
        assert(self.ends@.subrange(first as int, next as int) =~= self.ends@.skip(first as int));
        match repair.flush_buffer() {
            Ok(Some(_)) => {
                self.stage = ValidatorStage::RepairSend { truncate };
            },
            _ => {
                let _ = repair.flush();
                self.stage = ValidatorStage::RepairFlush { truncate };
            },
        }
        self.repair = repair;
    }

    fn accept_repair(&mut self, truncate: bool)
        requires
            old(self).wf(),
            old(self)@.stage == (ValidatorStage::RepairFlush { truncate }),
        ensures
            final(self).wf(),
            final(self)@ == old(self)@.repaired(truncate),
            final(self).spec_log() == old(self).spec_log(),
            final(self).spec_index() == old(self).spec_index(),
    {
        let _ = self.repair.resume(Ok(0));
        assert(self.repair@ =~= OutputState::empty());
        self.index_length = (self.trusted_records + self.ends.len() as u64) * INDEX_ENTRY_LEN;
        self.index_ready = true;
        self.stage = if truncate {
            ValidatorStage::TruncateCheckLog
        } else {
            ValidatorStage::Idle
        };
        assert(self@ =~= old(self)@.repaired(truncate));
    }

    fn resume_sending(&mut self, truncate: bool, outcome: Result<usize, IoError>) -> (result:
        ValidationResult)
        requires
            old(self).wf(),
            old(self)@.stage == (ValidatorStage::RepairSend { truncate }),
            old(self)@.output.offered(outcome),
        ensures
            final(self).wf(),
            old(self)@.resumed_sending(truncate, outcome, final(self)@, result),
            final(self).spec_log() == old(self).spec_log(),
            final(self).spec_index() == old(self).spec_index(),
    {
        match self.repair.resume(outcome) {
            Ok(Some(_)) => Ok(self.request()),
            Ok(None) => {
                let _ = self.repair.flush();
                self.stage = ValidatorStage::RepairFlush { truncate };
                Ok(self.request())
            },
            Err(error) => {
                self.stage = ValidatorStage::Failed;
                Err(LogValidationError::IndexWrite(error))
            },
        }
    }

    /// The scan to run over the log from its cursor on, up to the measured end.
    pub fn scan(&self) -> (scan: SuffixScan)
        requires
            self.wf(),
            self@.stage == ValidatorStage::Scan,
        ensures
            scan.wf(),
            scan@ == SuffixScanState::initial(self@.file_id, self@.start),
    {
        SuffixScan::new(self.file_id, self.start)
    }

    /// The number of bytes that the scan may read.
    pub fn scan_limit(&self) -> (limit: u64)
        requires
            self.wf(),
            self@.stage == ValidatorStage::Scan,
        ensures
            limit == self@.log_length - self@.start_position(),
    {
        self.log_length - RecordEndLocation::offset_of(self.start)
    }

    /// Takes the findings of the scan, or the decoder's failure.
    pub fn scanned(&mut self, findings: Result<SuffixFindings, RecordReadError>) -> (result:
        ValidationResult)
        requires
            old(self).wf(),
            old(self)@.stage == ValidatorStage::Scan,
            findings matches Ok(findings) ==> {
                &&& findings.wf()
                &&& findings@.file_id == old(self)@.file_id
                &&& findings@.start == old(self)@.start
                &&& findings@.position() <= old(self)@.log_length
            },
        ensures
            final(self).wf(),
            match findings {
                Ok(findings) => old(self)@.scanned(Ok(findings@), final(self)@, result),
                Err(error) => old(self)@.scanned(Err(error), final(self)@, result),
            },
            final(self).spec_log() == old(self).spec_log(),
            final(self).spec_index() == old(self).spec_index(),
    {
        let findings = match findings {
            Ok(findings) => findings,
            Err(error) => {
                return self.fail(LogValidationError::Read(error));
            },
        };
        let ghost scanned = findings@;
        let (ends, tail_error) = findings.into_parts();
        proof {
            scanned.lemma_extent();
            if scanned.accepted.len() > 0 {
                scanned.lemma_last_end();
                self.file_id.a_place_has_its_record(scanned.count() - 1);
            }
        }
        let scanned_count: usize = ends.len();
        let record_count: u64 = self.trusted_records + scanned_count as u64;
        let valid_length: u64 = if scanned_count == 0 {
            RecordEndLocation::offset_of(self.start)
        } else {
            ends[scanned_count - 1]
        };
        let mut tail_error = tail_error;
        if tail_error.is_none() && valid_length < self.log_length {
            if record_count == RECORDS_PER_FILE {
                tail_error = Some(LogTailError::ExtraData);
            } else {
                return self.fail(LogValidationError::FilesChanged);
            }
        }
        let matching: usize = matching_count(
            ends.as_slice(),
            self.index_bytes.as_slice(),
            self.trusted_records as usize,
        );
        let end = if scanned_count == 0 {
            self.start
        } else {
            match self.file_id.record_id_at(record_count - 1) {
                Ok(record_id) => Some(
                    RecordEndLocation::new(record_id, LogFilePosition::new(valid_length)),
                ),
                Err(_) => None,
            }
        };
        self.draft = Some(
            LogValidationReport::new(
                self.file_id,
                end,
                record_count,
                self.log_length,
                self.index_length,
                self.trusted_records + matching as u64,
                tail_error,
            ),
        );
        self.ends = ends;
        self.index_bytes = Vec::new();
        self.stage = ValidatorStage::RecheckLog;
        assert(self@.end() == end);
        Ok(self.request())
    }

    /// Why the pair cannot be handed over, if it cannot.
    pub fn check_handover(&self) -> (result: Result<(), LogValidationError>)
        ensures
            match result {
                Ok(_) => self@.handover_refusal() is None,
                Err(error) => self@.handover_refusal() == Some(error),
            },
    {
        if let Err(error) = self.validated_report() {
            return Err(error);
        }
        if !self.log_ready {
            return Err(LogValidationError::LogRepairRequired);
        }
        if !self.index_ready {
            return Err(LogValidationError::IndexRepairRequired);
        }
        Ok(())
    }

    /// Begins to hand a clean pair with room for more records to a writer.
    ///
    /// A pair whose last record is the last possible one of its stream has no successor to expect.
    pub fn into_writer(self) -> (result: Result<WriterHandover<F>, LogValidationError>)
        requires
            self.wf(),
            self@.handover_refusal() is None && self@.record_count() < RECORDS_PER_FILE ==> (
            self@.end() matches Some(end) ==> end.record_id.has_next()),
        ensures
            match self@.handover_refusal() {
                Some(refusal) => result matches Err(error) && error == refusal,
                None => if self@.record_count() == RECORDS_PER_FILE {
                    result matches Err(error) && error == LogValidationError::Full
                } else {
                    &&& result matches Ok(handover)
                    &&& handover.wf()
                    &&& handover@ == (HandoverState {
                        file_id: self@.file_id,
                        end: self@.end(),
                        log_length: self@.log_length,
                        index_length: self@.index_length,
                        stage: HandoverStage::SeekLog,
                    })
                    &&& handover.spec_log() == self.spec_log()
                    &&& handover.spec_index() == self.spec_index()
                },
            },
    {
        if let Err(error) = self.check_handover() {
            return Err(error);
        }
        let (full, end) = match &self.report {
            None => (false, None),
            Some(report) => (report.is_full(), report.end()),
        };
        if full {
            return Err(LogValidationError::Full);
        }
        Ok(
            WriterHandover::new(
                self.file_id,
                end,
                self.log_length,
                self.index_length,
                self.log,
                self.index,
            ),
        )
    }

    /// Begins to hand over a clean full pair.
    pub fn into_completed(self) -> (result: Result<CompletedHandover<F>, LogValidationError>)
        requires
            self.wf(),
        ensures
            match self@.handover_refusal() {
                Some(refusal) => result matches Err(error) && error == refusal,
                None => if self@.record_count() < RECORDS_PER_FILE {
                    result matches Err(error) && error == LogValidationError::NotFull
                } else {
                    &&& result matches Ok(handover)
                    &&& handover.wf()
                    &&& handover@ == (HandoverState {
                        file_id: self@.file_id,
                        end: self@.end(),
                        log_length: self@.log_length,
                        index_length: self@.index_length,
                        stage: HandoverStage::CheckLog,
                    })
                    &&& handover.spec_log() == self.spec_log()
                    &&& handover.spec_index() == self.spec_index()
                },
            },
    {
        if let Err(error) = self.check_handover() {
            return Err(error);
        }
        let (full, end) = match &self.report {
            None => (false, None),
            Some(report) => (report.is_full(), report.end()),
        };
        match end {
            Some(end) if full => Ok(
                CompletedHandover::new(
                    self.file_id,
                    end,
                    self.log_length,
                    self.index_length,
                    self.log,
                    self.index,
                ),
            ),
            _ => Err(LogValidationError::NotFull),
        }
    }
}

/// Whether the first `count` entries could be the ends of that many records, the last of which is
/// `position`.
fn holds_trusted_prefix(bytes: &[u8], count: u64, position: u64) -> (holds: bool)
    requires
        count <= RECORDS_PER_FILE,
    ensures
        holds == validator_state::holds_trusted_prefix(bytes@, count as int, position as int),
{
    if (bytes.len() as u64) < count * INDEX_ENTRY_LEN {
        return false;
    }
    let mut previous: u64 = 0;
    let mut entry: usize = 0;
    while (entry as u64) < count
        invariant
            entry <= count <= RECORDS_PER_FILE,
            INDEX_ENTRY_LEN * count <= bytes@.len(),
            previous == validator_state::previous_entry(bytes@, entry as int),
            forall|i: int|
                0 <= i < entry ==> #[trigger] validator_state::is_possible_entry(bytes@, i),
        decreases count - entry,
    {
        let end: u64 = index_entry::read_entry(bytes, entry);
        let gap: u64 = end.saturating_sub(previous);
        if gap < MIN_RECORD_LEN || gap > MAX_RECORD_LEN {
            assert(!validator_state::is_possible_entry(bytes@, entry as int));
            return false;
        }
        previous = end;
        entry = entry + 1;
    }
    previous == position
}

/// Counts the leading ends that the entries from `first` on agree with.
fn matching_count(ends: &[u64], bytes: &[u8], first: usize) -> (count: usize)
    requires
        first <= RECORDS_PER_FILE,
        ends@.len() <= RECORDS_PER_FILE,
        INDEX_ENTRY_LEN * first <= bytes@.len(),
    ensures
        validator_state::is_matching_count(count as int, ends@, bytes@, first as int),
{
    let available: usize = bytes.len() / INDEX_ENTRY_LEN as usize;
    let mut count: usize = 0;
    while count < ends.len() && first + count < available && ends[count] == index_entry::read_entry(
        bytes,
        first + count,
    )
        invariant
            first <= RECORDS_PER_FILE,
            count <= ends@.len() <= RECORDS_PER_FILE,
            available == bytes@.len() / 8,
            first + count <= available,
            forall|i: int|
                0 <= i < count ==> #[trigger] ends@[i] == index_entry::entry(bytes@, first + i),
        decreases ends@.len() - count,
    {
        count = count + 1;
    }
    count
}

impl ValidatorState {
    /// A pair of which nothing is known yet.
    pub open spec fn initial(file_id: LogFileId, start: Option<RecordEndLocation>) -> ValidatorState {
        ValidatorState {
            file_id,
            start,
            stage: ValidatorStage::Idle,
            index_bytes: Seq::empty(),
            ends: Seq::empty(),
            draft: None,
            report: None,
            log_length: 0,
            index_length: 0,
            index_ready: false,
            log_ready: false,
            output: OutputState::empty(),
        }
    }
}

} // verus!
