use vstd::prelude::*;

use crate::file::{FileReply, FileRequest};
use crate::index_entry;
use crate::index_entry::INDEX_ENTRY_LEN;
use crate::index_writer::{IndexWriteError, IndexWriteResult};
use crate::indexed_log_validator::log_validation_report::ReportView;
use crate::indexed_log_validator::suffix_scan::SuffixScanState;
use crate::indexed_log_validator::LogValidationError;
use crate::io_error::IoError;
use crate::location::{LogFileId, LogFilePosition, RecordEndLocation, RECORDS_PER_FILE};
use crate::output::{OutputPhase, OutputRequest, OutputResult, OutputState};
use crate::record::{self, RecordReadError};
use crate::validation::record_scan;
use crate::validation::{validated_file_pair, LogTailError, PairRequest};

verus! {

/// What a validator is doing; every stage but the first and the last has one outstanding request.
#[derive(Clone, Copy, Debug, PartialEq, Eq, Structural)]
pub enum ValidatorStage {
    /// No operation is under way.
    Idle,
    MeasureLog,
    MeasureIndex,
    SeekIndex,
    ReadIndex,
    SeekLog,
    Scan,
    RecheckLog,
    RecheckIndex,
    /// Repairing the index; `truncate` tells whether the log's tail is removed afterwards.
    RepairCheckLog { truncate: bool },
    RepairCheckIndex { truncate: bool },
    RepairFlushLog { truncate: bool },
    RepairSetLen { truncate: bool },
    RepairSeek { truncate: bool },
    RepairSend { truncate: bool },
    RepairFlush { truncate: bool },
    TruncateCheckLog,
    TruncateCheckIndex,
    TruncateSetLen,
    TruncateFlush,
    /// An operation failed.
    Failed,
}

/// The next request, or none when the operation has completed.
pub type ValidationResult = Result<Option<PairRequest>, LogValidationError>;

/// A validator's knowledge of its pair.
#[verifier::ext_equal]
pub struct ValidatorState {
    pub file_id: LogFileId,
    pub start: Option<RecordEndLocation>,
    pub stage: ValidatorStage,
    /// The index as it was read, as far as it can hold entries.
    pub index_bytes: Seq<u8>,
    /// The newly accepted records' ends.
    pub ends: Seq<u64>,
    /// The findings before the lengths were checked again.
    pub draft: Option<ReportView>,
    pub report: Option<ReportView>,
    pub log_length: u64,
    pub index_length: u64,
    pub index_ready: bool,
    pub log_ready: bool,
    /// The repaired entries.
    pub output: OutputState,
}

/// Whether the first `count` entries of the index could be the ends of that many records, the last
/// of which is `position`.
pub open spec fn holds_trusted_prefix(bytes: Seq<u8>, count: int, position: int) -> bool {
    &&& bytes.len() >= INDEX_ENTRY_LEN * count
    &&& forall|i: int| 0 <= i < count ==> #[trigger] is_possible_entry(bytes, i)
    &&& position == previous_entry(bytes, count)
}

/// The entry before the `index`-th one; zero before the first.
pub open spec fn previous_entry(bytes: Seq<u8>, index: int) -> int {
    if index == 0 {
        0
    } else {
        index_entry::entry(bytes, index - 1) as int
    }
}

/// Whether the `index`-th entry lies one record behind the preceding one.
pub open spec fn is_possible_entry(bytes: Seq<u8>, index: int) -> bool {
    record::is_record_length(index_entry::entry(bytes, index) - previous_entry(bytes, index))
}

/// Whether `count` is the number of leading ends that the entries from `first` on agree with.
pub open spec fn is_matching_count(count: int, ends: Seq<u64>, bytes: Seq<u8>, first: int) -> bool {
    &&& 0 <= count <= ends.len()
    &&& INDEX_ENTRY_LEN * (first + count) <= bytes.len()
    &&& forall|i: int| 0 <= i < count ==> #[trigger] ends[i] == index_entry::entry(bytes, first + i)
    &&& count < ends.len() && INDEX_ENTRY_LEN * (first + count + 1) <= bytes.len() ==> ends[count]
        != index_entry::entry(bytes, first + count)
}

impl ValidatorState {
    pub open spec fn trusted_count(self) -> int {
        RecordEndLocation::count(self.start)
    }

    pub open spec fn start_position(self) -> int {
        RecordEndLocation::offset(self.start)
    }

    /// Number of trusted and newly accepted records.
    pub open spec fn record_count(self) -> int {
        self.trusted_count() + self.ends.len()
    }

    /// Exclusive end of the accepted records.
    pub open spec fn valid_length(self) -> int {
        if self.ends.len() == 0 {
            self.start_position()
        } else {
            self.ends.last() as int
        }
    }

    /// The last accepted record's end.
    pub open spec fn end(self) -> Option<RecordEndLocation> {
        if self.ends.len() == 0 {
            self.start
        } else {
            Some(
                RecordEndLocation {
                    record_id: self.file_id.record_at(self.record_count() - 1),
                    position: LogFilePosition(self.ends.last()),
                },
            )
        }
    }

    /// Bytes of the index that can hold entries of the file.
    pub open spec fn index_limit(self) -> int {
        if self.index_length <= INDEX_ENTRY_LEN * RECORDS_PER_FILE {
            self.index_length as int
        } else {
            INDEX_ENTRY_LEN * RECORDS_PER_FILE
        }
    }

    /// The ends are those of records that follow the trusted ones and fit into the file.
    pub open spec fn has_possible_ends(self) -> bool {
        &&& self.record_count() <= RECORDS_PER_FILE
        &&& self.file_id.first_sequence() + self.record_count() <= u64::MAX + 1
        &&& validated_file_pair::is_file_end(self.file_id, self.end())
        &&& self.start_position() <= self.valid_length()
    }

    /// Whether `report` describes the accepted records.
    pub open spec fn is_described_by(self, report: ReportView) -> bool {
        &&& self.has_possible_ends()
        &&& report.file_id == self.file_id
        &&& report.end == self.end()
        &&& report.record_count == self.record_count()
        &&& self.trusted_count() <= report.matching_index_entries <= report.record_count
        &&& INDEX_ENTRY_LEN * report.matching_index_entries <= report.index_length
        &&& self.valid_length() <= report.log_length
        &&& report.tail_error is None ==> report.log_length == self.valid_length()
    }

    pub open spec fn wf(self) -> bool {
        &&& self.start matches Some(end) ==> self.file_id.assigns(end.record_id)
        &&& self.output.wf()
        &&& self.report matches Some(report) ==> self.is_described_by(report)
        &&& match self.stage {
            ValidatorStage::Failed => true,
            ValidatorStage::Idle => {
                &&& self.output == OutputState::empty()
                &&& if self.report is Some {
                    self.is_current()
                } else {
                    self.ends.len() == 0
                }
            },
            ValidatorStage::MeasureLog | ValidatorStage::MeasureIndex => {
                &&& self.report is None
                &&& self.output == OutputState::empty()
                &&& self.ends.len() == 0
            },
            ValidatorStage::SeekIndex | ValidatorStage::ReadIndex => {
                &&& self.report is None
                &&& self.output == OutputState::empty()
                &&& self.ends.len() == 0
                &&& self.start_position() <= self.log_length
                &&& record_scan::is_trusted_start(self.file_id, self.start)
            },
            ValidatorStage::SeekLog | ValidatorStage::Scan => {
                &&& self.report is None
                &&& self.output == OutputState::empty()
                &&& self.ends.len() == 0
                &&& self.start_position() <= self.log_length
                &&& record_scan::is_trusted_start(self.file_id, self.start)
                &&& self.index_bytes.len() == self.index_limit()
                &&& holds_trusted_prefix(
                    self.index_bytes,
                    self.trusted_count(),
                    self.start_position(),
                )
            },
            ValidatorStage::RecheckLog | ValidatorStage::RecheckIndex => {
                &&& self.report is None
                &&& self.output == OutputState::empty()
                &&& self.draft matches Some(draft) && self.is_described_by(draft)
                    && draft.log_length == self.log_length && draft.index_length
                    == self.index_length
            },
            ValidatorStage::RepairSend { .. } => {
                &&& self.is_repairing()
                &&& self.output.phase is Sending
                &&& self.output.bytes == self.repaired_entries()
            },
            ValidatorStage::RepairFlush { .. } => {
                &&& self.is_repairing()
                &&& self.output.phase == OutputPhase::Flushing
                &&& self.output.bytes.len() == 0
            },
            ValidatorStage::TruncateCheckLog | ValidatorStage::TruncateCheckIndex
            | ValidatorStage::TruncateSetLen | ValidatorStage::TruncateFlush => {
                &&& self.output == OutputState::empty()
                &&& self.report is Some
                &&& self.is_current()
                &&& self.index_ready
                &&& !self.log_ready
            },
            _ => self.is_repairing() && self.output == OutputState::empty(),
        }
    }

    /// The known lengths are those of the report, or those that the repairs have established.
    pub open spec fn is_current(self) -> bool {
        let report = self.report->0;
        &&& self.index_length == if self.index_ready {
            INDEX_ENTRY_LEN * report.record_count
        } else {
            report.index_length as int
        }
        &&& self.log_length == if self.log_ready {
            self.valid_length()
        } else {
            report.log_length as int
        }
        &&& !self.log_ready ==> report.tail_error is Some
    }

    pub open spec fn is_repairing(self) -> bool {
        &&& self.report is Some
        &&& self.is_current()
        &&& !self.index_ready
        &&& self.truncates() ==> !self.log_ready
    }

    /// Whether the log's tail is removed after the repair.
    pub open spec fn truncates(self) -> bool {
        match self.stage {
            ValidatorStage::RepairCheckLog { truncate } => truncate,
            ValidatorStage::RepairCheckIndex { truncate } => truncate,
            ValidatorStage::RepairFlushLog { truncate } => truncate,
            ValidatorStage::RepairSetLen { truncate } => truncate,
            ValidatorStage::RepairSeek { truncate } => truncate,
            ValidatorStage::RepairSend { truncate } => truncate,
            ValidatorStage::RepairFlush { truncate } => truncate,
            _ => false,
        }
    }

    /// The entries that the repair writes behind the matching ones.
    pub open spec fn repaired_entries(self) -> Seq<u8> {
        index_entry::encode(
            self.ends.skip(self.report->0.matching_index_entries - self.trusted_count()),
        )
    }

    /// The outstanding request.
    pub open spec fn request(self) -> Option<PairRequest> {
        let matching_end = (INDEX_ENTRY_LEN * self.report->0.matching_index_entries) as u64;
        match self.stage {
            ValidatorStage::Idle | ValidatorStage::Failed => None,
            ValidatorStage::MeasureLog | ValidatorStage::RecheckLog
            | ValidatorStage::RepairCheckLog { .. } | ValidatorStage::TruncateCheckLog => Some(
                PairRequest::Log(FileRequest::Length),
            ),
            ValidatorStage::MeasureIndex | ValidatorStage::RecheckIndex
            | ValidatorStage::RepairCheckIndex { .. } | ValidatorStage::TruncateCheckIndex => Some(
                PairRequest::Index(FileRequest::Length),
            ),
            ValidatorStage::SeekIndex => Some(PairRequest::Index(FileRequest::Seek(0))),
            ValidatorStage::ReadIndex => Some(
                PairRequest::Index(FileRequest::ReadUpTo(self.index_limit() as u64)),
            ),
            ValidatorStage::SeekLog => Some(
                PairRequest::Log(FileRequest::Seek(self.start_position() as u64)),
            ),
            ValidatorStage::Scan => Some(PairRequest::ScanLog),
            ValidatorStage::RepairFlushLog { .. } | ValidatorStage::TruncateFlush => Some(
                PairRequest::Log(FileRequest::Flush),
            ),
            ValidatorStage::RepairSetLen { .. } => Some(
                PairRequest::Index(FileRequest::SetLen(matching_end)),
            ),
            ValidatorStage::RepairSeek { .. } => Some(
                PairRequest::Index(FileRequest::Seek(matching_end)),
            ),
            ValidatorStage::RepairSend { .. } => Some(PairRequest::Index(FileRequest::Write)),
            ValidatorStage::RepairFlush { .. } => Some(PairRequest::Index(FileRequest::Flush)),
            ValidatorStage::TruncateSetLen => Some(
                PairRequest::Log(FileRequest::SetLen(self.valid_length() as u64)),
            ),
        }
    }

    /// Whether `reply` is an outcome of the outstanding file operation.
    pub open spec fn is_answered_by(self, reply: FileReply) -> bool {
        match self.request() {
            Some(PairRequest::Log(request)) => request.is_answered_by(reply, 0),
            Some(PairRequest::Index(request)) => request.is_answered_by(
                reply,
                self.output.unsent().len(),
            ),
            _ => false,
        }
    }

    pub open spec fn at(self, stage: ValidatorStage) -> ValidatorState {
        ValidatorState { stage, ..self }
    }

    /// Why an operation on a validated pair is refused, if it is.
    pub open spec fn refusal(self) -> Option<LogValidationError> {
        if self.stage != ValidatorStage::Idle {
            Some(LogValidationError::Unusable)
        } else if self.report is None {
            Some(LogValidationError::NotValidated)
        } else {
            None
        }
    }

    /// What beginning to validate does. A validated pair is not validated again.
    pub open spec fn began_validation(self, after: ValidatorState, result: ValidationResult) -> bool {
        if self.stage != ValidatorStage::Idle {
            after == self && result == ValidationResult::Err(LogValidationError::Unusable)
        } else if self.report is Some {
            after == self && result == ValidationResult::Ok(None)
        } else {
            &&& after == self.at(ValidatorStage::MeasureLog)
            &&& result == ValidationResult::Ok(after.request())
        }
    }

    /// What beginning to repair the index does. A right index is not touched.
    pub open spec fn began_repair(self, after: ValidatorState, result: ValidationResult) -> bool {
        if let Some(refusal) = self.refusal() {
            after == self && result == ValidationResult::Err(refusal)
        } else if self.index_ready {
            after == self && result == ValidationResult::Ok(None)
        } else {
            &&& after == self.at(ValidatorStage::RepairCheckLog { truncate: false })
            &&& result == ValidationResult::Ok(after.request())
        }
    }

    /// What beginning to remove the log's bad tail does: the index is repaired first, and a clean
    /// log is not touched.
    pub open spec fn began_truncation(self, after: ValidatorState, result: ValidationResult) -> bool {
        if let Some(refusal) = self.refusal() {
            after == self && result == ValidationResult::Err(refusal)
        } else if self.log_ready {
            after == self && result == ValidationResult::Ok(None)
        } else {
            &&& after == self.at(
                if self.index_ready {
                    ValidatorStage::TruncateCheckLog
                } else {
                    ValidatorStage::RepairCheckLog { truncate: true }
                },
            )
            &&& result == ValidationResult::Ok(after.request())
        }
    }

    /// Whether the operation has failed with `error`. The report, if there is one, stays.
    pub open spec fn failed(
        self,
        error: LogValidationError,
        after: ValidatorState,
        result: ValidationResult,
    ) -> bool {
        &&& after.stage == ValidatorStage::Failed
        &&& after.report == self.report
        &&& after.file_id == self.file_id
        &&& result == ValidationResult::Err(error)
    }

    /// Whether the operation goes on with `next`.
    pub open spec fn goes_on(
        self,
        next: ValidatorState,
        after: ValidatorState,
        result: ValidationResult,
    ) -> bool {
        after == next && result == ValidationResult::Ok(after.request())
    }

    /// The error for a failed operation of this stage.
    pub open spec fn io_error(self, error: IoError) -> LogValidationError {
        match (self.stage, self.request()) {
            (ValidatorStage::RepairFlush { .. }, _) => LogValidationError::IndexWrite(
                IndexWriteError::Io(error),
            ),
            (_, Some(PairRequest::Log(_))) => LogValidationError::LogIo(error),
            _ => LogValidationError::IndexIo(error),
        }
    }

    /// The state with the entries to repair about to be sent; without any nothing is sent.
    pub open spec fn sending(self, truncate: bool) -> ValidatorState {
        let entries = self.repaired_entries();
        if entries.len() == 0 {
            ValidatorState {
                stage: ValidatorStage::RepairFlush { truncate },
                output: OutputState { bytes: entries, phase: OutputPhase::Flushing },
                ..self
            }
        } else {
            ValidatorState {
                stage: ValidatorStage::RepairSend { truncate },
                output: OutputState { bytes: entries, phase: OutputPhase::Sending { sent: 0 } },
                ..self
            }
        }
    }

    /// The state with a repaired index.
    pub open spec fn repaired(self, truncate: bool) -> ValidatorState {
        ValidatorState {
            stage: if truncate {
                ValidatorStage::TruncateCheckLog
            } else {
                ValidatorStage::Idle
            },
            index_length: (INDEX_ENTRY_LEN * self.record_count()) as u64,
            index_ready: true,
            output: OutputState::empty(),
            ..self
        }
    }

    /// The state with a log whose bad tail was removed.
    pub open spec fn truncated(self) -> ValidatorState {
        ValidatorState {
            stage: ValidatorStage::Idle,
            log_length: self.valid_length() as u64,
            log_ready: true,
            ..self
        }
    }

    /// The state with the draft as the report.
    pub open spec fn reported(self) -> ValidatorState {
        ValidatorState {
            stage: ValidatorStage::Idle,
            report: self.draft,
            draft: None,
            index_ready: !self.draft->0.needs_index_repair(),
            log_ready: self.draft->0.tail_error is None,
            ..self
        }
    }

    /// What an outcome of the outstanding file operation does.
    pub open spec fn resumed(
        self,
        reply: FileReply,
        after: ValidatorState,
        result: ValidationResult,
    ) -> bool {
        match (self.stage, reply) {
            (ValidatorStage::RepairSend { truncate }, _) => self.resumed_sending(
                truncate,
                match reply {
                    FileReply::Failed(error) => Err(error),
                    FileReply::Accepted(accepted) => Ok(accepted),
                    _ => Ok(0),
                },
                after,
                result,
            ),
            (_, FileReply::Failed(error)) => self.failed(self.io_error(error), after, result),
            (ValidatorStage::MeasureLog, FileReply::Length(length)) => self.goes_on(
                ValidatorState {
                    stage: ValidatorStage::MeasureIndex,
                    log_length: length,
                    ..self
                },
                after,
                result,
            ),
            (ValidatorStage::MeasureIndex, FileReply::Length(length)) => {
                if self.start_position() <= self.log_length && record_scan::is_trusted_start(
                    self.file_id,
                    self.start,
                ) {
                    self.goes_on(
                        ValidatorState {
                            stage: ValidatorStage::SeekIndex,
                            index_length: length,
                            ..self
                        },
                        after,
                        result,
                    )
                } else {
                    &&& result matches Err(LogValidationError::InvalidStart(reason))
                    &&& reason@ == "position is outside the possible trusted record extent"@
                    &&& self.failed(LogValidationError::InvalidStart(reason), after, result)
                }
            },
            (ValidatorStage::SeekIndex, _) => self.goes_on(
                self.at(ValidatorStage::ReadIndex),
                after,
                result,
            ),
            (ValidatorStage::ReadIndex, FileReply::Bytes(bytes)) => {
                if bytes@.len() != self.index_limit() {
                    self.failed(LogValidationError::FilesChanged, after, result)
                } else if !holds_trusted_prefix(
                    bytes@,
                    self.trusted_count(),
                    self.start_position(),
                ) {
                    self.failed(LogValidationError::TrustedIndexUnavailable, after, result)
                } else {
                    self.goes_on(
                        ValidatorState {
                            stage: ValidatorStage::SeekLog,
                            index_bytes: bytes@,
                            ..self
                        },
                        after,
                        result,
                    )
                }
            },
            (ValidatorStage::SeekLog, _) => self.goes_on(
                self.at(ValidatorStage::Scan),
                after,
                result,
            ),
            (ValidatorStage::RecheckLog, FileReply::Length(length)) => self.rechecked(
                length == self.log_length,
                self.at(ValidatorStage::RecheckIndex),
                after,
                result,
            ),
            (ValidatorStage::RecheckIndex, FileReply::Length(length)) => self.rechecked(
                length == self.index_length,
                self.reported(),
                after,
                result,
            ),
            (ValidatorStage::RepairCheckLog { truncate }, FileReply::Length(length)) => {
                self.rechecked(
                    length == self.log_length,
                    self.at(ValidatorStage::RepairCheckIndex { truncate }),
                    after,
                    result,
                )
            },
            (ValidatorStage::RepairCheckIndex { truncate }, FileReply::Length(length)) => {
                self.rechecked(
                    length == self.index_length,
                    self.at(ValidatorStage::RepairFlushLog { truncate }),
                    after,
                    result,
                )
            },
            (ValidatorStage::RepairFlushLog { truncate }, _) => self.goes_on(
                self.at(ValidatorStage::RepairSetLen { truncate }),
                after,
                result,
            ),
            (ValidatorStage::RepairSetLen { truncate }, _) => self.goes_on(
                self.at(ValidatorStage::RepairSeek { truncate }),
                after,
                result,
            ),
            (ValidatorStage::RepairSeek { truncate }, _) => self.goes_on(
                self.sending(truncate),
                after,
                result,
            ),
            (ValidatorStage::RepairFlush { truncate }, _) => self.goes_on(
                self.repaired(truncate),
                after,
                result,
            ),
            (ValidatorStage::TruncateCheckLog, FileReply::Length(length)) => self.rechecked(
                length == self.log_length,
                self.at(ValidatorStage::TruncateCheckIndex),
                after,
                result,
            ),
            (ValidatorStage::TruncateCheckIndex, FileReply::Length(length)) => self.rechecked(
                length == self.index_length,
                self.at(ValidatorStage::TruncateSetLen),
                after,
                result,
            ),
            (ValidatorStage::TruncateSetLen, _) => self.goes_on(
                self.at(ValidatorStage::TruncateFlush),
                after,
                result,
            ),
            (ValidatorStage::TruncateFlush, _) => self.goes_on(self.truncated(), after, result),
            _ => false,
        }
    }

    /// What a repeated measurement does.
    pub open spec fn rechecked(
        self,
        unchanged: bool,
        next: ValidatorState,
        after: ValidatorState,
        result: ValidationResult,
    ) -> bool {
        if unchanged {
            self.goes_on(next, after, result)
        } else {
            self.failed(LogValidationError::FilesChanged, after, result)
        }
    }

    /// What the outcome of writing repaired entries does.
    pub open spec fn resumed_sending(
        self,
        truncate: bool,
        outcome: Result<usize, IoError>,
        after: ValidatorState,
        result: ValidationResult,
    ) -> bool {
        ||| {
            &&& self.output.resumed(
                outcome,
                after.output,
                OutputResult::Ok(Some(OutputRequest::Write)),
            )
            &&& self.goes_on(ValidatorState { output: after.output, ..self }, after, result)
        }
        ||| {
            &&& self.output.resumed(outcome, OutputState::empty(), OutputResult::Ok(None))
            &&& self.goes_on(
                ValidatorState {
                    stage: ValidatorStage::RepairFlush { truncate },
                    output: OutputState::empty().with_phase(OutputPhase::Flushing),
                    ..self
                },
                after,
                result,
            )
        }
        ||| {
            &&& result matches Err(LogValidationError::IndexWrite(error))
            &&& self.output.resumed(
                outcome,
                self.output.with_phase(OutputPhase::Failed),
                IndexWriteError::output(IndexWriteResult::Err(error)),
            )
            &&& self.failed(LogValidationError::IndexWrite(error), after, result)
        }
    }

    /// What the outcome of the scan does.
    ///
    /// A scan that ended before the measured end of the log without a diagnosis has reached the
    /// file's capacity, or the file has changed.
    pub open spec fn scanned(
        self,
        findings: Result<SuffixScanState, RecordReadError>,
        after: ValidatorState,
        result: ValidationResult,
    ) -> bool {
        match findings {
            Err(error) => self.failed(LogValidationError::Read(error), after, result),
            Ok(scanned) => {
                let tail = scanned.phase->Finished_0;
                if tail is None && scanned.position() < self.log_length && scanned.count()
                    < RECORDS_PER_FILE {
                    self.failed(LogValidationError::FilesChanged, after, result)
                } else {
                    &&& after.draft matches Some(draft)
                    &&& self.is_draft(scanned, draft)
                    &&& self.goes_on(
                        ValidatorState {
                            stage: ValidatorStage::RecheckLog,
                            ends: scanned.ends(),
                            index_bytes: Seq::empty(),
                            draft: Some(draft),
                            ..self
                        },
                        after,
                        result,
                    )
                }
            },
        }
    }

    /// Whether `draft` are the findings that the scan and the index give.
    pub open spec fn is_draft(self, scanned: SuffixScanState, draft: ReportView) -> bool {
        let tail = scanned.phase->Finished_0;
        &&& draft.file_id == self.file_id
        &&& draft.end == ValidatorState { ends: scanned.ends(), ..self }.end()
        &&& draft.record_count == scanned.count()
        &&& draft.log_length == self.log_length
        &&& draft.index_length == self.index_length
        &&& is_matching_count(
            draft.matching_index_entries - self.trusted_count(),
            scanned.ends(),
            self.index_bytes,
            self.trusted_count(),
        )
        &&& draft.tail_error == if tail is None && scanned.position() < self.log_length {
            Some(LogTailError::ExtraData)
        } else {
            tail
        }
    }
}

} // verus!
