//! When a validation succeeds, what its report says, and what completed repairs have done.
use vstd::prelude::*;

use crate::file::{FileImage, FileReply, FileRequest};
use crate::index_entry;
use crate::index_writer::IndexWriteError;
use crate::indexed_log_validator::laws::{ValidatorRun, ValidatorStep};
use crate::indexed_log_validator::log_validation_report::ReportView;
use crate::indexed_log_validator::suffix_scan::SuffixScanState;
use crate::indexed_log_validator::validator_state::{
    self, ValidationResult, ValidatorStage, ValidatorState,
};
use crate::indexed_log_validator::LogValidationError;
use crate::io_error::{IoError, IoErrorKind};
use crate::location::{LogFileId, LogFilePosition, RecordEndLocation};
use crate::record::{RecordId, SequenceNumber};
use crate::validation::indexed_log_laws::PairImage;
use crate::validation::log_file_laws;
use crate::validation::record_scan::{self, ScanPhase};
use crate::validation::{LogTailError, PairRequest};

verus! {

/// Length of the record that the `index`-th entry ends.
pub open spec fn record_length(bytes: Seq<u8>, index: int) -> int {
    index_entry::entry(bytes, index) - (if index == 0 {
        0
    } else {
        index_entry::entry(bytes, index - 1) as int
    })
}

/// Whether the index holds one possible end for every record up to `start`, the last of which is
/// `start` itself.
pub open spec fn leads_up_to(bytes: Seq<u8>, start: Option<RecordEndLocation>) -> bool {
    match start {
        None => true,
        Some(end) => {
            let count = end.record_id.sequence_number.0 as int % 100_000 + 1;
            &&& bytes.len() >= 8 * count
            &&& forall|i: int|
                0 <= i < count ==> 16 <= #[trigger] record_length(bytes, i) <= 65_535
            &&& index_entry::entry(bytes, count - 1) == end.position.0
        },
    }
}

/// What an index holds for trusted entries does not change when it is cut off behind them.
proof fn lemma_trusted_prefix(bytes: Seq<u8>, limit: int, start: Option<RecordEndLocation>)
    requires
        8 * RecordEndLocation::count(start) <= limit <= bytes.len() || limit == bytes.len(),
    ensures
        validator_state::holds_trusted_prefix(
            bytes.take(limit),
            RecordEndLocation::count(start),
            RecordEndLocation::offset(start),
        ) <==> leads_up_to(bytes, start),
{
    let read = bytes.take(limit);
    let count = RecordEndLocation::count(start);
    if 8 * count <= limit {
        assert forall|i: int| 0 <= i < count implies index_entry::entry(read, i)
            == #[trigger] index_entry::entry(bytes, i) by {
            assert(read.subrange(8 * i, 8 * i + 8) =~= bytes.subrange(8 * i, 8 * i + 8));
        }
        if leads_up_to(bytes, start) {
            assert forall|i: int| 0 <= i < count implies #[trigger] validator_state::is_possible_entry(
                read,
                i,
            ) by {
                assert(16 <= record_length(bytes, i) <= 65_535);
            }
        }
        if validator_state::holds_trusted_prefix(read, count, RecordEndLocation::offset(start)) {
            assert forall|i: int| 0 <= i < count implies 16 <= #[trigger] record_length(bytes, i)
                <= 65_535 by {
                assert(validator_state::is_possible_entry(read, i));
            }
        }
    }
}

/// The steps of a repair or a truncation that matter for its order.
pub struct RepairSteps {
    /// The log is measured again.
    pub log_check: int,
    /// The index is measured again.
    pub index_check: int,
    /// The log is flushed.
    pub flush: int,
    /// The index is cut off behind its matching entries.
    pub cut: int,
    /// The log is cut off behind its accepted records.
    pub log_cut: int,
}

impl SuffixScanState {
    /// Whether the scan of a log with these contents has ended before their end only with a
    /// diagnosis or a full file.
    pub open spec fn is_complete(self, bytes: Seq<u8>) -> bool {
        self.phase == ScanPhase::Finished(None) && self.count() < 100_000 ==> self.position()
            == bytes.len()
    }
}

impl ValidatorState {
    /// Number of successful outcomes that the operation under way still needs at most; for the
    /// output of repaired entries, accepted bytes are counted.
    pub open spec fn remaining(self) -> int {
        let repaired = self.repaired_entries().len() as int;
        match self.stage {
            ValidatorStage::MeasureLog => 8,
            ValidatorStage::MeasureIndex => 7,
            ValidatorStage::SeekIndex => 6,
            ValidatorStage::ReadIndex => 5,
            ValidatorStage::SeekLog => 4,
            ValidatorStage::Scan => 3,
            ValidatorStage::RecheckLog => 2,
            ValidatorStage::RecheckIndex => 1,
            ValidatorStage::RepairCheckLog { .. } => repaired + 11,
            ValidatorStage::RepairCheckIndex { .. } => repaired + 10,
            ValidatorStage::RepairFlushLog { .. } => repaired + 9,
            ValidatorStage::RepairSetLen { .. } => repaired + 8,
            ValidatorStage::RepairSeek { .. } => repaired + 7,
            ValidatorStage::RepairSend { .. } => self.output.unsent().len() as int + 6,
            ValidatorStage::RepairFlush { .. } => 5,
            ValidatorStage::TruncateCheckLog => 4,
            ValidatorStage::TruncateCheckIndex => 3,
            ValidatorStage::TruncateSetLen => 2,
            ValidatorStage::TruncateFlush => 1,
            ValidatorStage::Idle | ValidatorStage::Failed => 0,
        }
    }

    /// Whether the stage belongs to a repair or a truncation.
    pub open spec fn is_changing(self) -> bool {
        !self.is_validating() && self.stage != ValidatorStage::Idle && self.stage
            != ValidatorStage::Failed
    }

    /// An operation asks for something until it has completed or failed, and takes every outcome
    /// that a file can give.
    pub proof fn an_operation_asks_until_it_has_ended(
        self,
        image: FileImage,
        reply: FileReply,
        after: FileImage,
    )
        ensures
            self.request() is None <==> self.stage == ValidatorStage::Idle || self.stage
                == ValidatorStage::Failed,
            self.request() == Some(PairRequest::ScanLog) <==> self.stage == ValidatorStage::Scan,
            self.request() matches Some(PairRequest::Log(request)) ==> image.serves(
                request,
                Seq::empty(),
                reply,
                after,
            ) ==> self.is_answered_by(reply),
            self.request() matches Some(PairRequest::Index(request)) ==> image.serves(
                request,
                self.output.unsent(),
                reply,
                after,
            ) ==> self.is_answered_by(reply),
    {
    }

    /// A pair that was not validated can be validated, a validated one repaired and its tail
    /// removed: none of the operations is refused, and it asks for something exactly where there is
    /// something to do.
    pub proof fn operations_on_an_idle_pair_begin(
        self,
        after: ValidatorState,
        result: ValidationResult,
    )
        requires
            self.wf(),
            self.stage == ValidatorStage::Idle,
        ensures
            self.began_validation(after, result) ==> {
                &&& result is Ok
                &&& result == ValidationResult::Ok(None) <==> self.report is Some
                &&& result == ValidationResult::Ok(None) ==> after == self
                &&& result != ValidationResult::Ok(None) ==> after.is_validating()
            },
            self.report is Some && self.began_repair(after, result) ==> {
                &&& result is Ok
                &&& result == ValidationResult::Ok(None) <==> self.index_ready
                &&& result == ValidationResult::Ok(None) ==> after == self
                &&& result != ValidationResult::Ok(None) ==> after.is_changing()
            },
            self.report is Some && self.began_truncation(after, result) ==> {
                &&& result is Ok
                &&& result == ValidationResult::Ok(None) <==> self.log_ready
                &&& result == ValidationResult::Ok(None) ==> after == self
                &&& result != ValidationResult::Ok(None) ==> after.is_changing()
            },
            self.report is None && (self.began_repair(after, result) || self.began_truncation(
                after,
                result,
            )) ==> after == self && result == ValidationResult::Err(
                LogValidationError::NotValidated,
            ),
    {
    }

    /// A file whose length is not the known one any more is noticed wherever the files are measured
    /// again, and so are an index that has become shorter while it was read and a log that has
    /// become shorter while it was scanned.
    pub proof fn changed_files_are_noticed(
        self,
        reply: FileReply,
        after: ValidatorState,
        result: ValidationResult,
    )
        requires
            self.wf(),
            self.is_answered_by(reply),
            self.resumed(reply, after, result),
            match (self.stage, reply) {
                (ValidatorStage::RecheckLog, FileReply::Length(length)) => length
                    != self.log_length,
                (ValidatorStage::RepairCheckLog { .. }, FileReply::Length(length)) => length
                    != self.log_length,
                (ValidatorStage::TruncateCheckLog, FileReply::Length(length)) => length
                    != self.log_length,
                (ValidatorStage::RecheckIndex, FileReply::Length(length)) => length
                    != self.index_length,
                (ValidatorStage::RepairCheckIndex { .. }, FileReply::Length(length)) => length
                    != self.index_length,
                (ValidatorStage::TruncateCheckIndex, FileReply::Length(length)) => length
                    != self.index_length,
                (ValidatorStage::ReadIndex, FileReply::Bytes(bytes)) => bytes@.len()
                    < self.index_length && bytes@.len() < 800_000,
                _ => false,
            },
        ensures
            result == ValidationResult::Err(LogValidationError::FilesChanged),
            after.stage == ValidatorStage::Failed,
    {
    }

    /// A scan that has accepted all it was handed, and found no damage, has come to the end of the
    /// log or to the end of the file's range; otherwise the log has changed.
    pub proof fn a_scan_that_falls_short_is_noticed(
        self,
        scanned: SuffixScanState,
        after: ValidatorState,
        result: ValidationResult,
    )
        requires
            self.stage == ValidatorStage::Scan,
            scanned.phase is Finished,
            self.scanned(Ok(scanned), after, result),
        ensures
            result is Err <==> {
                &&& scanned.phase == ScanPhase::Finished(None)
                &&& scanned.position() < self.log_length
                &&& scanned.count() < 100_000
            },
            result is Err ==> after.stage == ValidatorStage::Failed && result
                == ValidationResult::Err(LogValidationError::FilesChanged),
    {
    }

    /// A failed file operation ends the use of the validator and is handed on as the failure of its
    /// file, or of the repaired entries' output. Only an interrupted write is no failure: it is
    /// offered again. The report, if there is one, stays.
    pub proof fn a_failed_operation_is_reported_for_its_file(
        self,
        error: IoError,
        after: ValidatorState,
        result: ValidationResult,
    )
        requires
            self.wf(),
            self.is_answered_by(FileReply::Failed(error)),
            self.resumed(FileReply::Failed(error), after, result),
        ensures
            self.stage is RepairSend && error.kind == IoErrorKind::Interrupted ==> {
                &&& after == self
                &&& result == ValidationResult::Ok(self.request())
            },
            !(self.stage is RepairSend && error.kind == IoErrorKind::Interrupted) ==> {
                &&& after.stage == ValidatorStage::Failed
                &&& after.report == self.report
                &&& result == if self.stage is RepairSend || self.stage is RepairFlush {
                    ValidationResult::Err(
                        LogValidationError::IndexWrite(IndexWriteError::Io(error)),
                    )
                } else if self.request() matches Some(PairRequest::Log(_)) {
                    ValidationResult::Err(LogValidationError::LogIo(error))
                } else {
                    ValidationResult::Err(LogValidationError::IndexIo(error))
                }
            },
    {
    }

    /// While an operation is under way, or after one has failed, every operation is refused and
    /// changes nothing.
    pub proof fn an_operation_excludes_others(self, after: ValidatorState, result: ValidationResult)
        requires
            self.stage != ValidatorStage::Idle,
            self.began_validation(after, result) || self.began_repair(after, result)
                || self.began_truncation(after, result),
        ensures
            after == self,
            result == ValidationResult::Err(LogValidationError::Unusable),
    {
    }
}

impl ValidatorRun {
    /// Whether no operation has failed before the `step`-th state and in it.
    pub open spec fn has_not_failed(self, step: int) -> bool {
        forall|earlier: int|
            0 <= earlier <= step ==> (#[trigger] self.states[earlier]).stage
                != ValidatorStage::Failed
    }

    /// The validator stays with its file and its trusted end.
    pub proof fn lemma_same_pair(self, step: int)
        requires
            self.proceeds(),
            0 <= step < self.states.len(),
            self.has_not_failed(step),
        ensures
            self.states[step].file_id == self.states[0].file_id,
            self.states[step].start == self.states[0].start,
        decreases step,
    {
        if step > 0 {
            self.lemma_same_pair(step - 1);
            assert(self.is_step(step - 1));
            assert(self.states[step - 1].stage != ValidatorStage::Failed);
            assert(self.states[step].stage != ValidatorStage::Failed);
        }
    }

    /// Validation goes on with every successful outcome, and completes with a report, wherever the
    /// trusted end is a possible one at or before the end of the log and the index leads up to it.
    pub proof fn validation_behind_a_possible_end_goes_on(
        self,
        step: ValidatorStep,
        after: ValidatorState,
        result: ValidationResult,
        changed: PairImage,
    )
        requires
            self.proceeds(),
            self.has_not_failed(self.states.len() - 1),
            self.states.last().is_validating(),
            after.wf(),
            ValidatorRun::is_outcome(
                self.states.last(),
                self.images.last(),
                step,
                after,
                result,
                changed,
            ),
            log_file_laws::is_possible_start(
                self.states[0].file_id,
                self.states[0].start,
                self.images[0].log.bytes.len() as int,
            ),
            leads_up_to(self.images[0].index.bytes, self.states[0].start),
            match step {
                ValidatorStep::File(reply) => !(reply is Failed),
                ValidatorStep::Scan(findings) => findings matches Ok(scanned)
                    && scanned.is_complete(self.images.last().log.bytes),
                _ => false,
            },
        ensures
            result is Ok,
            0 <= after.remaining() < self.states.last().remaining(),
            after.is_validating() || after.stage == ValidatorStage::Idle && after.report is Some,
    {
        let last: int = self.states.len() - 1;
        self.lemma_matches_files(last);
        self.lemma_same_pair(last);
        let state = self.states[last];
        let bytes = self.images[0].index.bytes;
        if state.stage == ValidatorStage::ReadIndex {
            lemma_trusted_prefix(bytes, state.index_limit(), state.start);
            assert(bytes.skip(0) =~= bytes);
            assert(bytes.take(bytes.len() as int) =~= bytes);
        }
    }

    proof fn lemma_trusted(self, step: int)
        requires
            self.proceeds(),
            0 <= step < self.states.len(),
            self.has_not_failed(step),
        ensures
            ({
                let state = self.states[step];
                let start = self.states[0].start;
                let log_is_checked = log_file_laws::is_possible_start(
                    self.states[0].file_id,
                    start,
                    self.images[0].log.bytes.len() as int,
                );
                let index_is_checked = leads_up_to(self.images[0].index.bytes, start);
                match state.stage {
                    ValidatorStage::MeasureLog | ValidatorStage::MeasureIndex => true,
                    ValidatorStage::SeekIndex | ValidatorStage::ReadIndex => log_is_checked,
                    ValidatorStage::Idle => {
                        state.report is Some ==> log_is_checked && index_is_checked
                    },
                    _ => log_is_checked && index_is_checked,
                }
            }),
        decreases step,
    {
        self.lemma_same_pair(step);
        if step > 0 {
            let before = self.states[step - 1];
            self.lemma_trusted(step - 1);
            self.lemma_matches_files(step - 1);
            self.lemma_same_pair(step - 1);
            assert(self.is_step(step - 1));
            assert(before.stage != ValidatorStage::Failed);
            assert(self.states[step].stage != ValidatorStage::Failed);
            if before.stage == ValidatorStage::ReadIndex {
                let bytes = self.images[0].index.bytes;
                lemma_trusted_prefix(bytes, before.index_limit(), before.start);
                assert(bytes.skip(0) =~= bytes);
                assert(bytes.take(bytes.len() as int) =~= bytes);
            }
        }
    }

    /// A report vouches for the trusted end: it was a possible end of the file at or before the end
    /// of the log, and the index led up to it.
    pub proof fn a_report_vouches_for_the_trusted_end(self, step: int)
        requires
            self.proceeds(),
            0 <= step < self.states.len(),
            self.has_not_failed(step),
            self.states[step].report is Some,
        ensures
            log_file_laws::is_possible_start(
                self.states[0].file_id,
                self.states[0].start,
                self.images[0].log.bytes.len() as int,
            ),
            leads_up_to(self.images[0].index.bytes, self.states[0].start),
    {
        self.lemma_trusted(step);
        assert(self.states[step].wf());
    }

    /// An unusable trusted end is told from an unusable index: each is reported where it is the
    /// case, and the files are left as they were opened.
    pub proof fn an_unusable_start_is_reported(
        self,
        step: ValidatorStep,
        after: ValidatorState,
        error: LogValidationError,
        changed: PairImage,
    )
        requires
            self.proceeds(),
            self.has_not_failed(self.states.len() - 1),
            self.states.last().is_validating(),
            ValidatorRun::is_outcome(
                self.states.last(),
                self.images.last(),
                step,
                after,
                ValidationResult::Err(error),
                changed,
            ),
            step is File || step is Scan,
        ensures
            error is InvalidStart ==> !log_file_laws::is_possible_start(
                self.states[0].file_id,
                self.states[0].start,
                self.images[0].log.bytes.len() as int,
            ),
            error is TrustedIndexUnavailable ==> !leads_up_to(
                self.images[0].index.bytes,
                self.states[0].start,
            ),
            error is Read <==> step matches ValidatorStep::Scan(Err(_)),
            after.stage == ValidatorStage::Failed,
            changed.log.bytes == self.images[0].log.bytes,
            changed.index.bytes == self.images[0].index.bytes,
    {
        let last: int = self.states.len() - 1;
        self.lemma_matches_files(last);
        self.lemma_same_pair(last);
        let state = self.states[last];
        let bytes = self.images[0].index.bytes;
        if state.stage == ValidatorStage::ReadIndex {
            lemma_trusted_prefix(bytes, state.index_limit(), state.start);
            assert(bytes.skip(0) =~= bytes);
            assert(bytes.take(bytes.len() as int) =~= bytes);
        }
    }
}

impl ReportView {
    /// Whether the report says what the scan of a log of `log_length` bytes has found behind
    /// `start`: how many records the file has with the trusted ones, where the last one ends, and
    /// what follows it.
    pub open spec fn says_of(
        self,
        file_id: LogFileId,
        start: Option<RecordEndLocation>,
        scanned: SuffixScanState,
        log_length: int,
    ) -> bool {
        let trusted = match start {
            None => 0,
            Some(end) => end.record_id.sequence_number.0 as int % 100_000 + 1,
        };
        let position = (match start {
            None => 0,
            Some(end) => end.position.0 as int,
        }) + record_scan::total_length(scanned.accepted);
        &&& self.file_id == file_id
        &&& self.record_count == trusted + scanned.accepted.len()
        &&& self.end == if scanned.accepted.len() == 0 {
            start
        } else {
            Some(
                RecordEndLocation {
                    record_id: RecordId {
                        stream_id: file_id.stream_id,
                        sequence_number: SequenceNumber(
                            (file_id.file_number@ * 100_000 + self.record_count - 1) as u64,
                        ),
                    },
                    position: LogFilePosition(position as u64),
                },
            )
        }
        &&& self.tail_error == match scanned.phase {
            ScanPhase::Finished(Some(error)) => Some(error),
            _ => if position < log_length {
                Some(LogTailError::ExtraData)
            } else {
                None
            },
        }
    }
}

impl ValidatorRun {
    proof fn lemma_report_of_scan(self, scan: int, later: int)
        requires
            self.proceeds(),
            0 <= scan < later < self.states.len(),
            self.has_not_failed(later),
            self.steps[scan] matches ValidatorStep::Scan(Ok(_)),
        ensures
            ({
                let scanned = self.steps[scan]->Scan_0->Ok_0;
                let state = self.states[later];
                let length = self.images[0].log.bytes.len() as int;
                let begin = self.states[0];
                &&& state.ends == scanned.ends()
                &&& {
                    ||| {
                        &&& state.stage == ValidatorStage::RecheckLog || state.stage
                            == ValidatorStage::RecheckIndex
                        &&& state.draft matches Some(draft)
                        &&& draft.says_of(begin.file_id, begin.start, scanned, length)
                    }
                    ||| {
                        &&& !state.is_validating()
                        &&& state.report matches Some(report)
                        &&& report.says_of(begin.file_id, begin.start, scanned, length)
                    }
                }
            }),
        decreases later,
    {
        let scanned = self.steps[scan]->Scan_0->Ok_0;
        let before = self.states[later - 1];
        assert(self.is_step(later - 1));
        assert(before.wf());
        assert(before.stage != ValidatorStage::Failed);
        assert(self.states[later].stage != ValidatorStage::Failed);
        if later == scan + 1 {
            self.lemma_matches_files(scan);
            self.lemma_same_pair(scan);
            scanned.lemma_extent();
            if scanned.accepted.len() > 0 {
                scanned.lemma_last_end();
            }
        } else {
            self.lemma_report_of_scan(scan, later - 1);
        }
    }

    /// The scan begins right behind the trusted end, over the log as it was opened.
    pub proof fn the_scan_begins_behind_the_trusted_end(self, step: int)
        requires
            self.proceeds(),
            0 <= step < self.states.len(),
            self.has_not_failed(step),
            self.states[step].request() == Some(PairRequest::ScanLog),
        ensures
            self.images[step].log.bytes == self.images[0].log.bytes,
            self.images[step].log.cursor == RecordEndLocation::offset(self.states[0].start),
        decreases step,
    {
        self.lemma_matches_files(step);
        self.lemma_same_pair(step);
        assert(self.states[step].stage == ValidatorStage::Scan);
        let before = self.states[step - 1];
        assert(self.is_step(step - 1));
        assert(before.wf());
        assert(before.stage != ValidatorStage::Failed);
        if before.stage == ValidatorStage::Scan {
            self.the_scan_begins_behind_the_trusted_end(step - 1);
        }
    }

    /// The report counts the index entries that are right: the trusted ones and, behind them, all
    /// that hold the accepted records' ends, up to the first one that does not.
    pub proof fn the_matching_entries_are_all_that_match(self, step: int)
        requires
            self.proceeds(),
            0 <= step < self.states.len(),
            self.has_not_failed(step),
            self.states[step].report is Some,
        ensures
            ({
                let report = self.states[step].report->0;
                let trusted = RecordEndLocation::count(self.states[0].start);
                let ends = self.states[step].ends;
                let bytes = self.images[0].index.bytes;
                let matching = report.matching_index_entries as int;
                &&& report.log_length == self.images[0].log.bytes.len()
                &&& report.index_length == bytes.len()
                &&& report.record_count == trusted + ends.len()
                &&& trusted <= matching <= report.record_count
                &&& 8 * matching <= bytes.len()
                &&& forall|i: int|
                    0 <= i < matching - trusted ==> #[trigger] ends[i] == index_entry::entry(
                        bytes,
                        trusted + i,
                    )
                &&& matching < report.record_count && 8 * matching + 8 <= bytes.len()
                    ==> index_entry::entry(bytes, matching) != ends[matching - trusted]
            }),
    {
        self.lemma_matches_files(step);
        self.lemma_same_pair(step);
        assert(self.states[step].wf());
    }

    /// A report says what the scan has found: it counts the trusted and the accepted records, ends
    /// with the last of them, and names the decoder's diagnosis, or bytes behind a full file.
    pub proof fn a_report_says_what_the_scan_found(self, scan: int, later: int)
        requires
            self.proceeds(),
            0 <= scan < later < self.states.len(),
            self.has_not_failed(later),
            self.steps[scan] matches ValidatorStep::Scan(Ok(_)),
            self.states[later].report is Some,
        ensures
            self.states[later].report->0.says_of(
                self.states[0].file_id,
                self.states[0].start,
                self.steps[scan]->Scan_0->Ok_0,
                self.images[0].log.bytes.len() as int,
            ),
            self.states[later].ends == record_scan::ends_after(
                RecordEndLocation::offset(self.states[0].start),
                self.steps[scan]->Scan_0->Ok_0.accepted,
            ),
    {
        self.lemma_same_pair(scan);
        assert(self.is_step(scan));
        self.lemma_report_of_scan(scan, later);
        assert(self.states[later].wf());
    }

    /// Right after the validation, a pair whose index is right and whose log has no bad tail can be
    /// handed over.
    pub proof fn a_clean_pair_can_be_handed_over(self, step: int)
        requires
            self.proceeds(),
            0 <= step < self.states.len(),
            self.has_not_failed(step),
            self.states[step].stage == ValidatorStage::Idle,
            self.states[step].report is Some,
            self.states[step].report->0.tail_error is None,
            self.images[0].index.bytes == self.states[step].right_index(self.images[0].index.bytes),
        ensures
            self.states[step].handover_refusal() is None,
    {
        self.a_wrong_index_needs_repair(step);
        self.lemma_ready(step);
    }

    /// What needs no repair is ready from the beginning.
    proof fn lemma_ready(self, step: int)
        requires
            self.proceeds(),
            0 <= step < self.states.len(),
            self.has_not_failed(step),
        ensures
            self.states[step].report matches Some(report) ==> {
                &&& !report.needs_index_repair() ==> self.states[step].index_ready
                &&& report.tail_error is None ==> self.states[step].log_ready
            },
        decreases step,
    {
        if step > 0 {
            self.lemma_ready(step - 1);
            assert(self.is_step(step - 1));
            assert(self.states[step - 1].wf());
            assert(self.states[step - 1].stage != ValidatorStage::Failed);
            assert(self.states[step].stage != ValidatorStage::Failed);
        }
    }

    /// Repairs and truncations go on with every successful outcome that accepts some of the offered
    /// bytes, and come to their end.
    pub proof fn repairs_go_on(
        self,
        reply: FileReply,
        after: ValidatorState,
        result: ValidationResult,
        changed: PairImage,
    )
        requires
            self.proceeds(),
            self.has_not_failed(self.states.len() - 1),
            self.states.last().is_changing(),
            after.wf(),
            ValidatorRun::is_outcome(
                self.states.last(),
                self.images.last(),
                ValidatorStep::File(reply),
                after,
                result,
                changed,
            ),
            !(reply is Failed),
            reply != FileReply::Accepted(0),
        ensures
            result is Ok,
            0 <= after.remaining() < self.states.last().remaining(),
            after.is_changing() || after.stage == ValidatorStage::Idle,
    {
        let last: int = self.states.len() - 1;
        self.lemma_matches_files(last);
        let state = self.states[last];
        index_entry::lemma_encoded_length(state.ends);
        assert(state.wf());
    }

    /// Whether the operation that the `begin`-th step begins has completed after `end` steps, and
    /// not before.
    pub open spec fn completes(self, begin: int, end: int) -> bool {
        &&& 0 <= begin < end < self.states.len()
        &&& self.results[end - 1] == ValidationResult::Ok(None)
        &&& forall|step: int|
            begin <= step < end - 1 ==> #[trigger] self.results[step] != ValidationResult::Ok(None)
        &&& self.has_not_failed(end)
    }

    /// Whether the `step`-th step is the successful outcome of `request`.
    pub open spec fn answers(self, step: int, request: PairRequest) -> bool {
        &&& self.states[step].request() == Some(request)
        &&& self.steps[step] matches ValidatorStep::File(reply)
        &&& !(reply is Failed)
    }

    /// Whether the `step`-th step measures the log's length as the known one.
    pub open spec fn measures_log(self, step: int) -> bool {
        &&& self.states[step].request() == Some(PairRequest::Log(FileRequest::Length))
        &&& self.steps[step] matches ValidatorStep::File(FileReply::Length(length))
        &&& length == self.states[step].log_length
    }

    /// Whether the `step`-th step measures the index's length as the known one.
    pub open spec fn measures_index(self, step: int) -> bool {
        &&& self.states[step].request() == Some(PairRequest::Index(FileRequest::Length))
        &&& self.steps[step] matches ValidatorStep::File(FileReply::Length(length))
        &&& length == self.states[step].index_length
    }

    /// A repair that was begun, with or without a truncation, and has not completed.
    proof fn lemma_repairing(self, begin: int, step: int) -> (changes: RepairSteps)
        requires
            self.proceeds(),
            0 <= begin < step < self.states.len(),
            self.steps[begin] is Repair || self.steps[begin] is Truncate,
            self.results[begin] is Ok,
            self.has_not_failed(step),
            forall|earlier: int|
                begin <= earlier < step ==> #[trigger] self.results[earlier]
                    != ValidationResult::Ok(None),
        ensures
            ({
                let state = self.states[step];
                let truncate = self.steps[begin] is Truncate;
                let matching = (8 * state.report->0.matching_index_entries) as u64;
                let log_is_checked = begin < changes.log_check < step && self.measures_log(
                    changes.log_check,
                );
                let both_are_checked = {
                    &&& log_is_checked
                    &&& changes.log_check < changes.index_check < step
                    &&& self.measures_index(changes.index_check)
                };
                let log_is_flushed = {
                    &&& both_are_checked
                    &&& changes.index_check < changes.flush < step
                    &&& self.answers(changes.flush, PairRequest::Log(FileRequest::Flush))
                };
                let index_is_cut = {
                    &&& log_is_flushed
                    &&& changes.flush < changes.cut < step
                    &&& self.answers(
                        changes.cut,
                        PairRequest::Index(FileRequest::SetLen(matching)),
                    )
                };
                let log_is_cut = {
                    &&& both_are_checked
                    &&& changes.index_check < changes.log_cut < step
                    &&& self.answers(
                        changes.log_cut,
                        PairRequest::Log(FileRequest::SetLen(state.valid_length() as u64)),
                    )
                };
                &&& state.report == self.states[begin].report
                &&& state.report is Some
                &&& state.truncates() ==> truncate
                &&& match state.stage {
                    ValidatorStage::RepairCheckLog { truncate: t } => t == truncate,
                    ValidatorStage::RepairCheckIndex { truncate: t } => {
                        t == truncate && log_is_checked
                    },
                    ValidatorStage::RepairFlushLog { truncate: t } => {
                        t == truncate && both_are_checked
                    },
                    ValidatorStage::RepairSetLen { truncate: t } => t == truncate && log_is_flushed,
                    ValidatorStage::RepairSeek { truncate: t } => t == truncate && index_is_cut,
                    ValidatorStage::RepairSend { truncate: t } => t == truncate && index_is_cut,
                    ValidatorStage::RepairFlush { truncate: t } => t == truncate && index_is_cut,
                    ValidatorStage::TruncateCheckLog => truncate,
                    ValidatorStage::TruncateCheckIndex => truncate && log_is_checked,
                    ValidatorStage::TruncateSetLen => truncate && both_are_checked,
                    ValidatorStage::TruncateFlush => truncate && log_is_cut,
                    _ => false,
                }
                &&& self.states[begin].index_ready ==> !state.is_repairing()
            }),
        decreases step,
    {
        let last: int = step - 1;
        let before = self.states[last];
        assert(self.is_step(last));
        assert(before.wf());
        assert(self.states[step].wf());
        assert(before.stage != ValidatorStage::Failed);
        assert(self.states[step].stage != ValidatorStage::Failed);
        if step == begin + 1 {
            RepairSteps {
                log_check: begin,
                index_check: begin,
                flush: begin,
                cut: begin,
                log_cut: begin,
            }
        } else {
            let earlier = self.lemma_repairing(begin, last);
            assert(self.results[last] != ValidationResult::Ok(None));
            if self.steps[last] is File {
                match before.stage {
                    ValidatorStage::RepairCheckLog { .. } | ValidatorStage::TruncateCheckLog => {
                        RepairSteps { log_check: last, ..earlier }
                    },
                    ValidatorStage::RepairCheckIndex { .. } | ValidatorStage::TruncateCheckIndex => {
                        RepairSteps { index_check: last, ..earlier }
                    },
                    ValidatorStage::RepairFlushLog { .. } => RepairSteps { flush: last, ..earlier },
                    ValidatorStage::RepairSetLen { .. } => RepairSteps { cut: last, ..earlier },
                    ValidatorStage::TruncateSetLen => RepairSteps { log_cut: last, ..earlier },
                    _ => earlier,
                }
            } else {
                earlier
            }
        }
    }

    /// After a scan nothing is reported before both files were measured again.
    proof fn lemma_measured_again(self, scan: int, later: int) -> (checks: (int, int))
        requires
            self.proceeds(),
            0 <= scan < later < self.states.len(),
            self.has_not_failed(later),
            self.steps[scan] matches ValidatorStep::Scan(Ok(_)),
        ensures
            ({
                let state = self.states[later];
                let log_is_checked = scan < checks.0 < later && self.measures_log(checks.0);
                let both_are_checked = {
                    &&& log_is_checked
                    &&& checks.0 < checks.1 < later
                    &&& self.measures_index(checks.1)
                };
                match state.stage {
                    ValidatorStage::RecheckLog => true,
                    ValidatorStage::RecheckIndex => log_is_checked,
                    _ => state.report is Some && both_are_checked,
                }
            }),
        decreases later,
    {
        let last: int = later - 1;
        let before = self.states[last];
        assert(self.is_step(last));
        assert(before.wf());
        assert(self.states[later].wf());
        assert(before.stage != ValidatorStage::Failed);
        assert(self.states[later].stage != ValidatorStage::Failed);
        if later == scan + 1 {
            (scan, scan)
        } else {
            let earlier = self.lemma_measured_again(scan, last);
            if self.steps[last] is File && before.stage == ValidatorStage::RecheckLog {
                (last, earlier.1)
            } else if self.steps[last] is File && before.stage == ValidatorStage::RecheckIndex {
                (earlier.0, last)
            } else {
                earlier
            }
        }
    }

    /// A report is made only when both files, measured again after the scan, had their known
    /// lengths.
    pub proof fn a_report_follows_a_second_measurement(self, scan: int, later: int) -> (checks: (
        int,
        int,
    ))
        requires
            self.proceeds(),
            0 <= scan < later < self.states.len(),
            self.has_not_failed(later),
            self.steps[scan] matches ValidatorStep::Scan(Ok(_)),
            self.states[later].report is Some,
        ensures
            scan < checks.0 < checks.1 < later,
            self.measures_log(checks.0),
            self.measures_index(checks.1),
    {
        assert(self.states[later].wf());
        self.lemma_measured_again(scan, later)
    }

    /// A repair that completes has left the right index: the trusted entries as they were opened
    /// and exactly one entry with the end of each accepted record behind them. Where entries were
    /// wrong, both files were measured again, the log was flushed before the index was cut off
    /// behind its matching entries, and the index was flushed last.
    pub proof fn a_completed_repair_has_left_the_right_index(self, begin: int, end: int) -> (
    changes: RepairSteps)
        requires
            self.proceeds(),
            self.completes(begin, end),
            self.steps[begin] is Repair,
            self.results[begin] is Ok,
        ensures
            self.states[end].stage == ValidatorStage::Idle,
            self.states[end].report is Some,
            self.states[end].index_ready,
            self.images[end].index.bytes == self.images[0].index.bytes.take(
                8 * RecordEndLocation::count(self.states[0].start),
            ) + index_entry::encode(self.states[end].ends),
            !self.states[begin].index_ready ==> {
                &&& begin < changes.log_check < changes.index_check < changes.flush < changes.cut
                    < end - 1
                &&& self.measures_log(changes.log_check)
                &&& self.measures_index(changes.index_check)
                &&& self.answers(changes.flush, PairRequest::Log(FileRequest::Flush))
                &&& self.answers(
                    changes.cut,
                    PairRequest::Index(
                        FileRequest::SetLen(
                            (8 * self.states[end].report->0.matching_index_entries) as u64,
                        ),
                    ),
                )
                &&& self.answers(end - 1, PairRequest::Index(FileRequest::Flush))
            },
    {
        assert(self.is_step(begin));
        assert(self.states[begin].wf());
        assert(self.is_step(end - 1));
        assert(self.states[end - 1].wf());
        assert(self.states[end].wf());
        assert(self.states[begin].stage != ValidatorStage::Failed);
        assert(self.states[end].stage != ValidatorStage::Failed);
        self.lemma_same_pair(end);
        self.lemma_matches_files(end);
        if end == begin + 1 {
            RepairSteps {
                log_check: begin,
                index_check: begin,
                flush: begin,
                cut: begin,
                log_cut: begin,
            }
        } else {
            assert(self.results[begin] != ValidationResult::Ok(None));
            self.lemma_repairing(begin, end - 1)
        }
    }

    /// A truncation that completes has left the accepted records and nothing behind them. Where a
    /// tail was removed, the index was made right first, both files were measured again, and the log
    /// was flushed last.
    pub proof fn a_completed_truncation_has_left_the_accepted_records(
        self,
        begin: int,
        end: int,
    ) -> (changes: RepairSteps)
        requires
            self.proceeds(),
            self.completes(begin, end),
            self.steps[begin] is Truncate,
            self.results[begin] is Ok,
        ensures
            self.states[end].stage == ValidatorStage::Idle,
            self.states[end].report is Some,
            self.states[end].log_ready,
            self.images[end].log.bytes == self.images[0].log.bytes.take(
                RecordEndLocation::offset(self.states[end].report->0.end),
            ),
            !self.states[begin].log_ready ==> {
                &&& self.states[end].handover_refusal() is None
                &&& begin < changes.log_check < changes.index_check < changes.log_cut < end - 1
                &&& self.measures_log(changes.log_check)
                &&& self.measures_index(changes.index_check)
                &&& self.answers(
                    changes.log_cut,
                    PairRequest::Log(
                        FileRequest::SetLen(
                            RecordEndLocation::offset(self.states[end].report->0.end) as u64,
                        ),
                    ),
                )
                &&& self.answers(end - 1, PairRequest::Log(FileRequest::Flush))
                &&& self.images[end].index.bytes == self.images[0].index.bytes.take(
                    8 * RecordEndLocation::count(self.states[0].start),
                ) + index_entry::encode(self.states[end].ends)
            },
    {
        assert(self.is_step(begin));
        assert(self.states[begin].wf());
        assert(self.is_step(end - 1));
        assert(self.states[end - 1].wf());
        assert(self.states[end].wf());
        assert(self.states[begin].stage != ValidatorStage::Failed);
        assert(self.states[end].stage != ValidatorStage::Failed);
        self.lemma_same_pair(end);
        self.lemma_matches_files(end);
        if end == begin + 1 {
            RepairSteps {
                log_check: begin,
                index_check: begin,
                flush: begin,
                cut: begin,
                log_cut: begin,
            }
        } else {
            assert(self.results[begin] != ValidationResult::Ok(None));
            self.lemma_repairing(begin, end - 1)
        }
    }
}

} // verus!
