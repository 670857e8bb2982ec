//! What validation and repair do to a log and its index.
use vstd::prelude::*;

use crate::file::{FileImage, FileReply, FileRequest};
use crate::index_entry;
use crate::index_entry::INDEX_ENTRY_LEN;
use crate::indexed_log_validator::log_validation_report::ReportView;
use crate::indexed_log_validator::suffix_scan::SuffixScanState;
use crate::indexed_log_validator::validator_state::{
    self, ValidationResult, ValidatorStage, ValidatorState,
};
use crate::output::{OutputRequest, OutputResult, OutputState};
use crate::record::RecordReadError;
use crate::validation::indexed_log_laws::PairImage;
use crate::validation::PairRequest;

verus! {

impl ValidatorState {
    /// Whether the stage belongs to the validation.
    pub open spec fn is_validating(self) -> bool {
        match self.stage {
            ValidatorStage::MeasureLog | ValidatorStage::MeasureIndex | ValidatorStage::SeekIndex
            | ValidatorStage::ReadIndex | ValidatorStage::SeekLog | ValidatorStage::Scan
            | ValidatorStage::RecheckLog | ValidatorStage::RecheckIndex => true,
            _ => false,
        }
    }

    /// Validation asks for no operation that could change a file.
    pub proof fn validation_only_reads(self)
        requires
            self.is_validating(),
        ensures
            match self.request() {
                Some(PairRequest::Log(request)) => request.only_reads(),
                Some(PairRequest::Index(request)) => request.only_reads(),
                Some(PairRequest::ScanLog) => true,
                _ => false,
            },
    {
    }

    /// The only operation that shortens the log is its truncation to the accepted records, behind a
    /// diagnosed tail and after the index was repaired.
    pub proof fn only_a_diagnosed_tail_is_removed(self, request: FileRequest)
        requires
            self.wf(),
            self.request() == Some(PairRequest::Log(request)),
            request is SetLen,
        ensures
            request == FileRequest::SetLen(self.valid_length() as u64),
            self.report->0.tail_error is Some,
            self.index_ready,
            self.start_position() <= self.valid_length() <= self.report->0.log_length,
    {
    }

    /// A failed or unfinished validation grants no repair and no handover.
    pub proof fn only_a_completed_validation_grants_repairs(
        self,
        after: ValidatorState,
        result: ValidationResult,
    )
        requires
            self.stage != ValidatorStage::Idle || self.report is None,
            self.began_repair(after, result) || self.began_truncation(after, result),
        ensures
            after == self,
            result is Err,
            self.handover_refusal() is Some,
    {
    }

    /// A completed repair, and likewise a completed truncation, leaves nothing more to do.
    pub proof fn completed_operations_are_idempotent(
        self,
        after: ValidatorState,
        result: ValidationResult,
    )
        requires
            self.stage == ValidatorStage::Idle,
            self.report is Some,
        ensures
            self.began_validation(after, result) ==> after == self && result
                == ValidationResult::Ok(None),
            self.index_ready && self.began_repair(after, result) ==> after == self && result
                == ValidationResult::Ok(None),
            self.log_ready && self.began_truncation(after, result) ==> after == self && result
                == ValidationResult::Ok(None),
    {
    }

    /// The contents of an index with exactly one right entry per accepted record.
    pub open spec fn right_index(self, bytes: Seq<u8>) -> Seq<u8> {
        bytes.take(INDEX_ENTRY_LEN * self.trusted_count()) + index_entry::encode(self.ends)
    }

    /// Whether the findings agree with the pair as it was opened: its lengths, and the number of
    /// leading index entries that are right, which is the largest one.
    pub open spec fn agrees(self, report: ReportView, begin: PairImage) -> bool {
        let matching = report.matching_index_entries as int;
        &&& report.log_length == begin.log.bytes.len()
        &&& report.index_length == begin.index.bytes.len()
        &&& begin.index.bytes.take(INDEX_ENTRY_LEN * matching) == begin.index.bytes.take(
            INDEX_ENTRY_LEN * self.trusted_count(),
        ) + index_entry::encode(self.ends.take(matching - self.trusted_count()))
        &&& validator_state::is_matching_count(
            matching - self.trusted_count(),
            self.ends,
            begin.index.bytes,
            self.trusted_count(),
        )
    }

    /// What holds of the files between two operations, `begin` being the files as they were opened.
    pub open spec fn matches_files(self, begin: PairImage, image: PairImage) -> bool {
        let right = self.right_index(begin.index.bytes);
        let log_is_kept = image.log.bytes == begin.log.bytes;
        let index_is_kept = image.index.bytes == begin.index.bytes;
        &&& self.wf()
        &&& self.report matches Some(report) ==> self.agrees(report, begin)
        &&& match self.stage {
            ValidatorStage::Failed => true,
            ValidatorStage::Idle => {
                &&& image.index.bytes == if self.index_ready {
                    right
                } else {
                    begin.index.bytes
                }
                &&& image.log.bytes == if self.log_ready {
                    begin.log.bytes.take(self.valid_length())
                } else {
                    begin.log.bytes
                }
                &&& self.report is None ==> !self.index_ready && !self.log_ready
            },
            ValidatorStage::MeasureLog => log_is_kept && index_is_kept,
            ValidatorStage::MeasureIndex => {
                log_is_kept && index_is_kept && self.log_length == begin.log.bytes.len()
            },
            ValidatorStage::SeekIndex => {
                &&& log_is_kept && index_is_kept
                &&& self.log_length == begin.log.bytes.len()
                &&& self.index_length == begin.index.bytes.len()
            },
            ValidatorStage::ReadIndex => {
                &&& log_is_kept && index_is_kept
                &&& self.log_length == begin.log.bytes.len()
                &&& self.index_length == begin.index.bytes.len()
                &&& image.index.cursor == 0
            },
            ValidatorStage::SeekLog | ValidatorStage::Scan => {
                &&& log_is_kept && index_is_kept
                &&& self.log_length == begin.log.bytes.len()
                &&& self.index_length == begin.index.bytes.len()
                &&& self.index_bytes == begin.index.bytes.take(self.index_limit())
            },
            ValidatorStage::RecheckLog | ValidatorStage::RecheckIndex => {
                &&& log_is_kept && index_is_kept
                &&& self.draft matches Some(draft) && self.agrees(draft, begin)
            },
            ValidatorStage::RepairSend { .. } => {
                &&& image.log.bytes == self.known_log(begin)
                &&& image.index.bytes + self.output.unsent() == right
                &&& image.index.cursor == image.index.bytes.len()
            },
            ValidatorStage::RepairFlush { .. } => {
                image.log.bytes == self.known_log(begin) && image.index.bytes == right
            },
            ValidatorStage::RepairSeek { .. } => {
                &&& image.log.bytes == self.known_log(begin)
                &&& image.index.bytes == begin.index.bytes.take(
                    INDEX_ENTRY_LEN * self.report->0.matching_index_entries,
                )
            },
            ValidatorStage::TruncateCheckLog | ValidatorStage::TruncateCheckIndex
            | ValidatorStage::TruncateSetLen => log_is_kept && image.index.bytes == right,
            ValidatorStage::TruncateFlush => {
                &&& image.log.bytes == begin.log.bytes.take(self.valid_length())
                &&& image.index.bytes == right
            },
            _ => image.log.bytes == self.known_log(begin) && index_is_kept,
        }
    }

    /// The log as the validator knows it.
    pub open spec fn known_log(self, begin: PairImage) -> Seq<u8> {
        if self.log_ready {
            begin.log.bytes.take(self.valid_length())
        } else {
            begin.log.bytes
        }
    }
}

impl SuffixScanState {
    /// Whether the findings can come from a decoder that read these bytes.
    pub open spec fn fits(self, bytes: Seq<u8>) -> bool {
        self.position() <= bytes.len()
    }
}

/// One step with a validator: an operation begins, or a request has an outcome.
pub enum ValidatorStep {
    Validate,
    Repair,
    Truncate,
    File(FileReply),
    Scan(Result<SuffixScanState, RecordReadError>),
}

/// The operations of one validator together with the files it works on: `states` and `images` have
/// one element more than there are steps.
pub struct ValidatorRun {
    pub states: Seq<ValidatorState>,
    pub images: Seq<PairImage>,
    pub steps: Seq<ValidatorStep>,
    pub results: Seq<ValidationResult>,
}

impl ValidatorRun {
    /// Whether `step` leads from one state of the validator and its files to the next.
    pub open spec fn is_outcome(
        before: ValidatorState,
        image: PairImage,
        step: ValidatorStep,
        after: ValidatorState,
        result: ValidationResult,
        changed: PairImage,
    ) -> bool {
        match (step, before.request()) {
            (ValidatorStep::Validate, _) => {
                before.began_validation(after, result) && changed == image
            },
            (ValidatorStep::Repair, _) => before.began_repair(after, result) && changed == image,
            (ValidatorStep::Truncate, _) => {
                before.began_truncation(after, result) && changed == image
            },
            (ValidatorStep::File(reply), Some(PairRequest::Log(request))) => {
                &&& image.log.serves(request, Seq::empty(), reply, changed.log)
                &&& changed.index == image.index
                &&& before.resumed(reply, after, result)
            },
            (ValidatorStep::File(reply), Some(PairRequest::Index(request))) => {
                &&& image.index.serves(request, before.output.unsent(), reply, changed.index)
                &&& changed.log == image.log
                &&& before.resumed(reply, after, result)
            },
            (ValidatorStep::Scan(findings), Some(PairRequest::ScanLog)) => {
                &&& changed.log.bytes == image.log.bytes
                &&& changed.index == image.index
                &&& findings matches Ok(scanned) ==> {
                    &&& scanned.wf()
                    &&& scanned.phase is Finished
                    &&& scanned.file_id == before.file_id
                    &&& scanned.start == before.start
                    &&& scanned.fits(image.log.bytes)
                }
                &&& before.scanned(findings, after, result)
            },
            _ => false,
        }
    }

    pub open spec fn is_step(self, step: int) -> bool {
        ValidatorRun::is_outcome(
            self.states[step],
            self.images[step],
            self.steps[step],
            self.states[step + 1],
            self.results[step],
            self.images[step + 1],
        )
    }

    /// Whether the run begins with a freshly opened pair and every step leads from one well-formed
    /// state to the next.
    pub open spec fn proceeds(self) -> bool {
        &&& self.states.len() == self.steps.len() + 1
        &&& self.images.len() == self.states.len()
        &&& self.results.len() == self.steps.len()
        &&& self.states[0] == ValidatorState::initial(self.states[0].file_id, self.states[0].start)
        &&& forall|step: int| 0 <= step < self.states.len() ==> (#[trigger] self.states[step]).wf()
        &&& forall|step: int| 0 <= step < self.steps.len() ==> #[trigger] self.is_step(step)
    }

    proof fn lemma_drafted(
        begin: PairImage,
        before: ValidatorState,
        scanned: SuffixScanState,
        after: ValidatorState,
    )
        requires
            before.matches_files(begin, begin),
            before.stage == ValidatorStage::Scan,
            scanned.wf(),
            scanned.start == before.start,
            after.ends == scanned.ends(),
            after.start == before.start,
            after.draft matches Some(draft) && before.is_draft(scanned, draft),
        ensures
            after.agrees(after.draft->0, begin),
    {
        let draft = after.draft->0;
        let trusted = before.trusted_count();
        let count = draft.matching_index_entries - trusted;
        let matched = scanned.ends().take(count);
        let read = before.index_bytes;
        let bytes = begin.index.bytes;
        assert forall|i: int| 0 <= i < matched.len() implies #[trigger] matched[i]
            == index_entry::entry(read, trusted + i) by {
            assert(matched[i] == scanned.ends()[i]);
        }
        index_entry::lemma_entries_determine_bytes(read, trusted, matched);
        assert forall|i: int| 0 <= i && 8 * (i + 1) <= read.len() implies index_entry::entry(read, i)
            == #[trigger] index_entry::entry(bytes, i) by {
            assert(read.subrange(8 * i, 8 * i + 8) =~= bytes.subrange(8 * i, 8 * i + 8));
        }
        assert(read.subrange(8 * trusted, 8 * (trusted + count)) =~= bytes.subrange(
            8 * trusted,
            8 * (trusted + count),
        ));
        assert(bytes.take(8 * (trusted + count)) =~= bytes.take(8 * trusted) + bytes.subrange(
            8 * trusted,
            8 * (trusted + count),
        ));
    }

    proof fn lemma_reported(begin: PairImage, before: ValidatorState, image: PairImage)
        requires
            before.matches_files(begin, image),
            before.stage == ValidatorStage::RecheckIndex,
        ensures
            before.reported().wf() ==> before.reported().matches_files(begin, image),
    {
        let draft = before.draft->0;
        let after = before.reported();
        if after.wf() {
            if after.index_ready {
                assert(before.ends.take(draft.record_count - before.trusted_count())
                    =~= before.ends);
                assert(begin.index.bytes.take(begin.index.bytes.len() as int)
                    =~= begin.index.bytes);
            }
            if after.log_ready {
                assert(begin.log.bytes.take(begin.log.bytes.len() as int) =~= begin.log.bytes);
            }
        }
    }

    proof fn lemma_sending(begin: PairImage, before: ValidatorState, image: PairImage, truncate: bool)
        requires
            before.matches_files(begin, image),
            before.stage == (ValidatorStage::RepairSeek { truncate }),
        ensures
            ({
                let after = before.sending(truncate);
                image.index.bytes + after.output.unsent() == before.right_index(begin.index.bytes)
            }),
    {
        let matching = before.report->0.matching_index_entries - before.trusted_count();
        let after = before.sending(truncate);
        let ends = before.ends;
        index_entry::lemma_encode_concat(ends.take(matching), ends.skip(matching));
        assert(ends.take(matching) + ends.skip(matching) =~= ends);
        assert(after.output.unsent() =~= before.repaired_entries());
        assert(image.index.bytes + before.repaired_entries() =~= before.right_index(
            begin.index.bytes,
        ));
    }

    proof fn lemma_begun(
        begin: PairImage,
        before: ValidatorState,
        image: PairImage,
        after: ValidatorState,
        result: ValidationResult,
    )
        requires
            before.matches_files(begin, image),
            after.wf(),
            before.began_validation(after, result) || before.began_repair(after, result)
                || before.began_truncation(after, result),
        ensures
            after.matches_files(begin, image),
    {
    }

    proof fn lemma_validated(
        begin: PairImage,
        before: ValidatorState,
        image: PairImage,
        reply: FileReply,
        after: ValidatorState,
        result: ValidationResult,
        changed: PairImage,
    )
        requires
            before.matches_files(begin, image),
            before.is_validating(),
            after.wf(),
            after.stage != ValidatorStage::Failed,
            ValidatorRun::is_outcome(
                before,
                image,
                ValidatorStep::File(reply),
                after,
                result,
                changed,
            ),
        ensures
            after.matches_files(begin, changed),
    {
        match (before.stage, reply) {
            (ValidatorStage::ReadIndex, FileReply::Bytes(bytes)) => {
                assert(begin.index.bytes.skip(0) =~= begin.index.bytes);
                assert(bytes@ =~= begin.index.bytes.take(before.index_limit()));
            },
            (ValidatorStage::RecheckIndex, _) => {
                ValidatorRun::lemma_reported(begin, before, changed);
            },
            _ => {},
        }
    }

    proof fn lemma_repaired(
        begin: PairImage,
        before: ValidatorState,
        image: PairImage,
        reply: FileReply,
        after: ValidatorState,
        result: ValidationResult,
        changed: PairImage,
    )
        requires
            before.matches_files(begin, image),
            before.is_repairing(),
            after.wf(),
            after.stage != ValidatorStage::Failed,
            ValidatorRun::is_outcome(
                before,
                image,
                ValidatorStep::File(reply),
                after,
                result,
                changed,
            ),
        ensures
            after.matches_files(begin, changed),
    {
        match before.stage {
            ValidatorStage::RepairSetLen { .. } => {
                FileImage::lemma_shortening_keeps_a_prefix(
                    begin.index.bytes,
                    (INDEX_ENTRY_LEN * before.report->0.matching_index_entries) as nat,
                );
            },
            ValidatorStage::RepairSeek { truncate } => {
                ValidatorRun::lemma_sending(begin, before, changed, truncate);
                if after.stage is RepairFlush {
                    assert(after.output.unsent() =~= Seq::empty());
                    assert(changed.index.bytes + Seq::<u8>::empty() =~= changed.index.bytes);
                }
            },
            ValidatorStage::RepairSend { .. } => {
                ValidatorRun::lemma_sent(begin, before, image, reply, after, changed);
            },
            _ => {},
        }
    }

    proof fn lemma_truncated(
        begin: PairImage,
        before: ValidatorState,
        image: PairImage,
        reply: FileReply,
        after: ValidatorState,
        result: ValidationResult,
        changed: PairImage,
    )
        requires
            before.matches_files(begin, image),
            !before.is_repairing(),
            !before.is_validating(),
            before.stage != ValidatorStage::Failed,
            after.wf(),
            after.stage != ValidatorStage::Failed,
            ValidatorRun::is_outcome(
                before,
                image,
                ValidatorStep::File(reply),
                after,
                result,
                changed,
            ),
        ensures
            after.matches_files(begin, changed),
    {
        if before.stage == ValidatorStage::TruncateSetLen {
            FileImage::lemma_shortening_keeps_a_prefix(
                begin.log.bytes,
                before.valid_length() as nat,
            );
        }
    }

    /// A step keeps the relation between the validator and its files.
    proof fn lemma_step_matches_files(
        begin: PairImage,
        before: ValidatorState,
        image: PairImage,
        step: ValidatorStep,
        after: ValidatorState,
        result: ValidationResult,
        changed: PairImage,
    )
        requires
            before.matches_files(begin, image),
            before.stage != ValidatorStage::Failed,
            after.wf(),
            after.stage != ValidatorStage::Failed,
            ValidatorRun::is_outcome(before, image, step, after, result, changed),
        ensures
            after.matches_files(begin, changed),
    {
        match step {
            ValidatorStep::File(reply) => {
                if before.is_validating() {
                    ValidatorRun::lemma_validated(
                        begin,
                        before,
                        image,
                        reply,
                        after,
                        result,
                        changed,
                    );
                } else if before.is_repairing() {
                    ValidatorRun::lemma_repaired(
                        begin,
                        before,
                        image,
                        reply,
                        after,
                        result,
                        changed,
                    );
                } else {
                    ValidatorRun::lemma_truncated(
                        begin,
                        before,
                        image,
                        reply,
                        after,
                        result,
                        changed,
                    );
                }
            },
            ValidatorStep::Scan(Ok(scanned)) => {
                assert(before.matches_files(begin, begin));
                ValidatorRun::lemma_drafted(begin, before, scanned, after);
            },
            ValidatorStep::Scan(Err(_)) => {},
            _ => {
                ValidatorRun::lemma_begun(begin, before, image, after, result);
            },
        }
    }

    proof fn lemma_sent(
        begin: PairImage,
        before: ValidatorState,
        image: PairImage,
        reply: FileReply,
        after: ValidatorState,
        changed: PairImage,
    )
        requires
            before.matches_files(begin, image),
            before.stage is RepairSend,
            after.stage is RepairSend || after.stage is RepairFlush,
            image.index.serves(FileRequest::Write, before.output.unsent(), reply, changed.index),
            before.resumed(reply, after, ValidationResult::Ok(after.request())),
        ensures
            after.stage is RepairSend ==> {
                &&& changed.index.bytes + after.output.unsent() == before.right_index(
                    begin.index.bytes,
                )
                &&& changed.index.cursor == changed.index.bytes.len()
            },
            after.stage is RepairFlush ==> changed.index.bytes == before.right_index(
                begin.index.bytes,
            ),
    {
        if let FileReply::Accepted(accepted) = reply {
            let offered = before.output.unsent();
            let taken = offered.take(accepted as int);
            FileImage::lemma_writing_at_the_end_appends(image.index.bytes, taken);
            if after.stage is RepairSend {
                before.output.a_reply_moves_bytes_once(
                    Ok(accepted),
                    after.output,
                    OutputResult::Ok(Some(OutputRequest::Write)),
                );
                assert(image.index.bytes + offered =~= (image.index.bytes + taken)
                    + after.output.unsent());
            } else {
                before.output.a_reply_moves_bytes_once(
                    Ok(accepted),
                    OutputState::empty(),
                    OutputResult::Ok(None),
                );
                assert(taken =~= offered);
            }
        }
    }

    /// The relation between the validator and its files holds at every time before a failure.
    pub proof fn lemma_matches_files(self, step: int)
        requires
            self.proceeds(),
            0 <= step < self.states.len(),
            forall|earlier: int|
                0 <= earlier <= step ==> (#[trigger] self.states[earlier]).stage
                    != ValidatorStage::Failed,
        ensures
            self.states[step].matches_files(self.images[0], self.images[step]),
        decreases step,
    {
        assert(self.states[step].wf());
        if step > 0 {
            self.lemma_matches_files(step - 1);
            assert(self.is_step(step - 1));
            ValidatorRun::lemma_step_matches_files(
                self.images[0],
                self.states[step - 1],
                self.images[step - 1],
                self.steps[step - 1],
                self.states[step],
                self.results[step - 1],
                self.images[step],
            );
        }
    }

    /// A pair that can be handed over agrees: the log ends with the last accepted record, and the
    /// index holds the trusted entries as they were and exactly the accepted records' ends behind
    /// them.
    pub proof fn a_repaired_pair_agrees(self, step: int)
        requires
            self.proceeds(),
            0 <= step < self.states.len(),
            forall|earlier: int|
                0 <= earlier <= step ==> (#[trigger] self.states[earlier]).stage
                    != ValidatorStage::Failed,
            self.states[step].handover_refusal() is None,
        ensures
            ({
                let state = self.states[step];
                let begin = self.images[0];
                let image = self.images[step];
                &&& image.log.bytes == begin.log.bytes.take(state.valid_length())
                &&& image.index.bytes == begin.index.bytes.take(
                    INDEX_ENTRY_LEN * state.trusted_count(),
                ) + index_entry::encode(state.ends)
                &&& image.index.bytes.len() == INDEX_ENTRY_LEN * state.record_count()
                &&& image.log.bytes.len() == state.log_length
                &&& image.index.bytes.len() == state.index_length
            }),
    {
        self.lemma_matches_files(step);
        let state = self.states[step];
        index_entry::lemma_encoded_length(state.ends);
    }

    /// After an index repair alone the log is as it was opened, bad tail and all, and the index
    /// holds the trusted entries as they were and exactly the accepted records' ends behind them.
    /// Before the repair the index is as it was opened too. The report agrees with the pair as it
    /// was opened, whatever was repaired since.
    pub proof fn a_repaired_index_agrees(self, step: int)
        requires
            self.proceeds(),
            0 <= step < self.states.len(),
            forall|earlier: int|
                0 <= earlier <= step ==> (#[trigger] self.states[earlier]).stage
                    != ValidatorStage::Failed,
            self.states[step].stage == ValidatorStage::Idle,
            self.states[step].report is Some,
        ensures
            ({
                let state = self.states[step];
                let begin = self.images[0];
                let image = self.images[step];
                &&& state.index_ready ==> image.index.bytes == begin.index.bytes.take(
                    INDEX_ENTRY_LEN * state.trusted_count(),
                ) + index_entry::encode(state.ends)
                &&& !state.index_ready ==> image.index.bytes == begin.index.bytes
                &&& !state.log_ready ==> image.log.bytes == begin.log.bytes
                &&& state.agrees(state.report->0, begin)
            }),
    {
        self.lemma_matches_files(step);
    }

    /// A report is final: no later step with the validator changes it, not even one that fails.
    pub proof fn a_report_is_never_revised(self, earlier: int, later: int)
        requires
            self.proceeds(),
            0 <= earlier <= later < self.states.len(),
            self.states[earlier].report is Some,
        ensures
            self.states[later].report == self.states[earlier].report,
        decreases later,
    {
        if earlier < later {
            self.a_report_is_never_revised(earlier, later - 1);
            assert(self.states[later - 1].wf());
            assert(self.is_step(later - 1));
        }
    }

    /// A report asks for an index repair exactly when the index as it was opened is not the right
    /// one.
    pub proof fn a_wrong_index_needs_repair(self, step: int)
        requires
            self.proceeds(),
            0 <= step < self.states.len(),
            forall|earlier: int|
                0 <= earlier <= step ==> (#[trigger] self.states[earlier]).stage
                    != ValidatorStage::Failed,
            self.states[step].report is Some,
        ensures
            self.states[step].report->0.needs_index_repair() <==> self.images[0].index.bytes
                != self.states[step].right_index(self.images[0].index.bytes),
    {
        self.lemma_matches_files(step);
        let state = self.states[step];
        let report = state.report->0;
        let bytes = self.images[0].index.bytes;
        let trusted = state.trusted_count();
        let matching = report.matching_index_entries - trusted;
        let encoded = index_entry::encode(state.ends);
        index_entry::lemma_encoded_length(state.ends);
        if !report.needs_index_repair() {
            assert(state.ends.take(matching) =~= state.ends);
            assert(bytes.take(bytes.len() as int) =~= bytes);
        } else if bytes == state.right_index(bytes) && matching < state.ends.len() {
            index_entry::decode_undoes_encode(state.ends);
            assert(index_entry::entries(encoded)[matching] == state.ends[matching]);
            assert(bytes.subrange(8 * (trusted + matching), 8 * (trusted + matching) + 8)
                =~= encoded.subrange(8 * matching, 8 * matching + 8));
        }
    }

    /// The log's contents stay as they were until the file has cut off a diagnosed tail; what is
    /// left then are the accepted records. Only a truncation's flush can still be outstanding.
    pub proof fn the_log_changes_only_by_truncation(self, step: int)
        requires
            self.proceeds(),
            0 <= step < self.states.len(),
            forall|earlier: int|
                0 <= earlier <= step ==> (#[trigger] self.states[earlier]).stage
                    != ValidatorStage::Failed,
            self.images[step].log.bytes != self.images[0].log.bytes,
        ensures
            self.states[step].stage == ValidatorStage::TruncateFlush || self.states[step].log_ready,
            self.states[step].report matches Some(report) && report.tail_error is Some,
            self.images[step].log.bytes == self.images[0].log.bytes.take(
                self.states[step].valid_length(),
            ),
    {
        self.lemma_matches_files(step);
        let state = self.states[step];
        let bytes = self.images[0].log.bytes;
        if state.report is Some && state.report->0.tail_error is None {
            assert(bytes.take(state.valid_length()) =~= bytes);
        }
    }
}

} // verus!
