//! What recovery does to a log file.
use vstd::prelude::*;

use crate::file::{FileImage, FileReply};
use crate::location::{LogFileId, RecordEndLocation};
use crate::record::{RecordHeader, RecordReadError};
use crate::validation::log_file_validator::{LogRecoveryState, LogRequest, LogStage};
use crate::validation::record_scan::{self, ScanPhase, ScanState};
use crate::validation::record_scan_laws::{self, ScanRun};
use crate::validation::LogFileValidationError;

verus! {

/// Whether `start` is absent or ends a record of the file within the first `length` bytes, where
/// every record of the file up to that one takes up 16 through 65,535 bytes.
pub open spec fn is_possible_start(
    file_id: LogFileId,
    start: Option<RecordEndLocation>,
    length: int,
) -> bool {
    match start {
        None => true,
        Some(end) => {
            let sequence = end.record_id.sequence_number.0 as int;
            let count = sequence % 100_000 + 1;
            &&& end.record_id.stream_id == file_id.stream_id
            &&& sequence / 100_000 == file_id.file_number@
            &&& 16 * count <= end.position.0 <= 65_535 * count
            &&& end.position.0 <= length
        },
    }
}

impl ScanState {
    /// Whether the findings can come from a decoder that read these bytes: accepted records lie
    /// within them, and an end without a diagnosis is the end of the bytes.
    pub open spec fn fits(self, bytes: Seq<u8>) -> bool {
        &&& self.position() <= bytes.len()
        &&& self.phase == ScanPhase::Finished(None) ==> self.position() == bytes.len()
    }

    /// The contents that recovery gives to a file with the given contents.
    pub open spec fn recovered(self, bytes: Seq<u8>) -> Seq<u8> {
        bytes.take(self.position())
    }

    /// The end of the accepted records is the offset that the file is cut off at.
    pub proof fn lemma_validated_offset(self)
        requires
            self.wf(),
        ensures
            RecordEndLocation::offset(self.validated_end()) == self.position(),
            RecordEndLocation::count(self.validated_end()) == self.count(),
            self.start() <= self.position(),
            self.validated_end() matches Some(end) ==> self.file_id.assigns(end.record_id),
    {
        self.lemma_extent();
        record_scan::lemma_total_length_is_nonnegative(self.accepted);
        if self.accepted.len() > 0 {
            self.file_id.a_place_has_its_record(self.count() - 1);
        }
    }
}

impl LogRecoveryState {
    /// What holds of the file between two operations, `bytes` being its contents at the beginning.
    pub open spec fn matches_file(self, bytes: Seq<u8>, image: FileImage) -> bool {
        &&& self.wf()
        &&& match self.stage {
            LogStage::ReadLength => image.bytes == bytes,
            LogStage::Seek { file_length } => {
                image.bytes == bytes && file_length == bytes.len()
            },
            LogStage::Scan { file_length } => {
                &&& image.bytes == bytes
                &&& file_length == bytes.len()
                &&& image.cursor == self.start()
            },
            LogStage::Truncate(scanned) => image.bytes == bytes && scanned.fits(bytes),
            LogStage::Synchronize(scanned) => {
                image.bytes == scanned.recovered(bytes) && scanned.fits(bytes)
            },
            LogStage::Finished(scanned) => {
                &&& image.bytes == scanned.recovered(bytes)
                &&& image.durable == image.bytes
                &&& scanned.fits(bytes)
            },
        }
    }
}

/// One step of a recovery: a file operation's outcome or the outcome of the scan.
pub enum LogStep {
    File(FileReply),
    Scan(Result<ScanState, RecordReadError>),
}

/// A recovery together with the file it works on: `states` and `images` have one element more than
/// there are steps.
pub struct LogRecoveryRun {
    pub states: Seq<LogRecoveryState>,
    pub images: Seq<FileImage>,
    pub steps: Seq<LogStep>,
}

impl LogRecoveryRun {
    /// Whether `step` is what the file, or the decoder reading it, gives in this state, `after`
    /// being the file then, and `result` what comes of it.
    pub open spec fn is_outcome(
        state: LogRecoveryState,
        image: FileImage,
        step: LogStep,
        after: FileImage,
        result: Result<LogRecoveryState, LogFileValidationError>,
    ) -> bool {
        match step {
            LogStep::File(reply) => {
                &&& state.request() matches LogRequest::File(request)
                &&& image.serves(request, Seq::empty(), reply, after)
                &&& state.resumed(reply, result)
            },
            LogStep::Scan(findings) => {
                &&& state.request() == LogRequest::Scan
                &&& after.bytes == image.bytes
                &&& after.durable == image.durable
                &&& findings matches Ok(scanned) ==> state.is_scanned_by(scanned) && scanned.fits(
                    image.bytes,
                )
                &&& state.scanned(findings, result)
            },
        }
    }

    pub open spec fn is_step(self, step: int) -> bool {
        LogRecoveryRun::is_outcome(
            self.states[step],
            self.images[step],
            self.steps[step],
            self.images[step + 1],
            Ok(self.states[step + 1]),
        )
    }

    /// Whether the run begins a recovery and goes on with it, so far without an error.
    pub open spec fn proceeds(self) -> bool {
        &&& self.states.len() == self.steps.len() + 1
        &&& self.images.len() == self.states.len()
        &&& self.states[0].wf()
        &&& self.states[0].stage == LogStage::ReadLength
        &&& forall|step: int| 0 <= step < self.steps.len() ==> #[trigger] self.is_step(step)
    }

    /// A step keeps the relation between the recovery and its file.
    pub proof fn lemma_step_matches_file(
        bytes: Seq<u8>,
        state: LogRecoveryState,
        image: FileImage,
        step: LogStep,
        after: FileImage,
        next: LogRecoveryState,
    )
        requires
            state.matches_file(bytes, image),
            LogRecoveryRun::is_outcome(state, image, step, after, Ok(next)),
        ensures
            next.matches_file(bytes, after),
            next.last_trusted == state.last_trusted,
            next.file_id == state.file_id,
    {
        match state.stage {
            LogStage::Scan { .. } => {
                if let LogStep::Scan(Ok(scanned)) = step {
                    if scanned.phase == ScanPhase::Finished(None) {
                        assert(scanned.recovered(bytes) =~= bytes);
                    }
                }
            },
            LogStage::Truncate(scanned) => {
                scanned.lemma_validated_offset();
                scanned.lemma_extent();
                FileImage::lemma_shortening_keeps_a_prefix(bytes, scanned.position() as nat);
            },
            _ => {},
        }
    }

    proof fn lemma_matches_file(self, step: int)
        requires
            self.proceeds(),
            0 <= step < self.states.len(),
        ensures
            self.states[step].matches_file(self.images[0].bytes, self.images[step]),
            self.states[step].last_trusted == self.states[0].last_trusted,
            self.states[step].file_id == self.states[0].file_id,
        decreases step,
    {
        if step > 0 {
            self.lemma_matches_file(step - 1);
            assert(self.is_step(step - 1));
            LogRecoveryRun::lemma_step_matches_file(
                self.images[0].bytes,
                self.states[step - 1],
                self.images[step - 1],
                self.steps[step - 1],
                self.images[step],
                self.states[step],
            );
        }
    }

    /// A finished recovery has kept the trusted prefix and every accepted record, has removed
    /// everything behind them, and has made the result durable.
    pub proof fn a_finished_recovery_has_kept_the_accepted_records(self)
        requires
            self.proceeds(),
            self.states.last().stage is Finished,
        ensures
            ({
                let scanned = self.states.last().stage->Finished_0;
                let bytes = self.images[0].bytes;
                &&& scanned.last_trusted == self.states[0].last_trusted
                &&& scanned.file_id == self.states[0].file_id
                &&& scanned.start() <= scanned.position() <= bytes.len()
                &&& self.images.last().bytes == bytes.take(scanned.position())
                &&& self.images.last().bytes.take(scanned.start()) == bytes.take(scanned.start())
                &&& self.images.last().durable == self.images.last().bytes
            }),
    {
        self.lemma_matches_file(self.states.len() - 1);
        let scanned = self.states.last().stage->Finished_0;
        let bytes = self.images[0].bytes;
        scanned.lemma_validated_offset();
        assert(bytes.take(scanned.position()).take(scanned.start()) =~= bytes.take(
            scanned.start(),
        ));
    }

    /// An unusable trusted end and a failure of the decoder leave the file's contents alone.
    pub proof fn a_failed_check_never_truncates(
        self,
        step: LogStep,
        after: FileImage,
        error: LogFileValidationError,
    )
        requires
            self.proceeds(),
            LogRecoveryRun::is_outcome(
                self.states.last(),
                self.images.last(),
                step,
                after,
                Err(error),
            ),
            error is InvalidStart || error is Read,
        ensures
            after.bytes == self.images[0].bytes,
    {
        self.lemma_matches_file(self.states.len() - 1);
    }

    /// The file is cut off only where a complete scan has diagnosed what follows the accepted
    /// records.
    pub proof fn only_a_diagnosed_tail_is_removed(self)
        requires
            self.proceeds(),
            self.states.last().stage is Finished,
            self.images.last().bytes != self.images[0].bytes,
        ensures
            self.states.last().stage->Finished_0.phase matches ScanPhase::Finished(Some(_)),
    {
        self.lemma_matches_file(self.states.len() - 1);
        let scanned = self.states.last().stage->Finished_0;
        let bytes = self.images[0].bytes;
        if scanned.phase == ScanPhase::Finished(None) {
            assert(scanned.recovered(bytes) =~= bytes);
        }
    }
}

impl LogRecoveryState {
    /// Recovery asks for a file operation or for the scan until it has finished, and takes every
    /// outcome that a file can give.
    pub proof fn recovery_asks_until_it_has_finished(
        self,
        image: FileImage,
        reply: FileReply,
        after: FileImage,
    )
        ensures
            self.request() == LogRequest::Finished <==> self.stage is Finished,
            self.request() == LogRequest::Scan <==> self.stage is Scan,
            self.request() matches LogRequest::File(request) ==> image.serves(
                request,
                Seq::empty(),
                reply,
                after,
            ) ==> self.is_answered_by(reply),
    {
    }

    /// Number of successful outcomes that recovery still needs at most.
    pub open spec fn remaining(self) -> int {
        match self.stage {
            LogStage::ReadLength => 5,
            LogStage::Seek { .. } => 4,
            LogStage::Scan { .. } => 3,
            LogStage::Truncate(_) => 2,
            LogStage::Synchronize(_) => 1,
            LogStage::Finished(_) => 0,
        }
    }
}

impl LogRecoveryRun {
    /// Recovery goes on with every successful outcome, and comes to its end, wherever the trusted
    /// end is a possible one at or before the end of the file.
    pub proof fn recovery_behind_a_possible_end_goes_on(
        self,
        step: LogStep,
        after: FileImage,
        result: Result<LogRecoveryState, LogFileValidationError>,
    )
        requires
            self.proceeds(),
            LogRecoveryRun::is_outcome(
                self.states.last(),
                self.images.last(),
                step,
                after,
                result,
            ),
            is_possible_start(
                self.states[0].file_id,
                self.states[0].last_trusted,
                self.images[0].bytes.len() as int,
            ),
            !(step matches LogStep::File(FileReply::Failed(_))),
            !(step matches LogStep::Scan(Err(_))),
        ensures
            result is Ok,
            0 <= result->Ok_0.remaining() < self.states.last().remaining(),
    {
        self.lemma_matches_file(self.states.len() - 1);
    }

    /// A failed recovery names its reason: the trusted end is refused only where it is no possible
    /// one at or before the end of the file, and any other error is the file's or the decoder's.
    pub proof fn a_failed_recovery_names_its_reason(
        self,
        step: LogStep,
        after: FileImage,
        error: LogFileValidationError,
    )
        requires
            self.proceeds(),
            LogRecoveryRun::is_outcome(
                self.states.last(),
                self.images.last(),
                step,
                after,
                Err(error),
            ),
        ensures
            match step {
                LogStep::File(FileReply::Failed(failure)) => error == LogFileValidationError::Io(
                    failure,
                ),
                LogStep::Scan(Err(failure)) => error == LogFileValidationError::Read(failure),
                _ => {
                    &&& error is InvalidStart
                    &&& !is_possible_start(
                        self.states[0].file_id,
                        self.states[0].last_trusted,
                        self.images[0].bytes.len() as int,
                    )
                },
            },
    {
        self.lemma_matches_file(self.states.len() - 1);
    }

    /// Nothing is scanned, cut off or synchronized behind an impossible trusted end.
    pub proof fn recovery_vouches_for_the_trusted_end(self)
        requires
            self.proceeds(),
            self.states.last().stage !is ReadLength,
        ensures
            is_possible_start(
                self.states[0].file_id,
                self.states[0].last_trusted,
                self.images[0].bytes.len() as int,
            ),
    {
        let last: int = self.states.len() - 1;
        self.lemma_matches_file(last);
        self.lemma_possible(last);
    }

    /// The scan begins right behind the trusted end, over the file as it was opened, whose length it
    /// is told.
    pub proof fn the_scan_begins_behind_the_trusted_end(self, step: int)
        requires
            self.proceeds(),
            0 <= step < self.states.len(),
            self.states[step].request() == LogRequest::Scan,
        ensures
            self.images[step].bytes == self.images[0].bytes,
            self.images[step].cursor == RecordEndLocation::offset(self.states[0].last_trusted),
            self.states[step].stage matches LogStage::Scan { file_length } && file_length
                == self.images[0].bytes.len(),
    {
        self.lemma_matches_file(step);
    }

    proof fn lemma_possible(self, step: int)
        requires
            self.proceeds(),
            0 <= step < self.states.len(),
            self.states[step].stage !is ReadLength,
        ensures
            is_possible_start(
                self.states[0].file_id,
                self.states[0].last_trusted,
                self.images[0].bytes.len() as int,
            ),
        decreases step,
    {
        self.lemma_matches_file(step - 1);
        assert(self.is_step(step - 1));
        if self.states[step - 1].stage !is ReadLength {
            self.lemma_possible(step - 1);
        }
    }
}

impl ScanRun {
    /// Whether a scan of a file with these contents is handed exactly `records`, and no damage
    /// behind them.
    pub open spec fn finds_again(
        self,
        begin: LogRecoveryState,
        bytes: Seq<u8>,
        records: Seq<RecordHeader>,
    ) -> bool {
        let events = self.events.len() as int;
        &&& self.proceeds()
        &&& self.states[0] == ScanState::initial(
            begin.file_id,
            begin.last_trusted,
            bytes.len() as u64,
        )
        &&& record_scan_laws::handed_out(self.events, events) == records
        &&& !(record_scan_laws::last_fetch(self.events, events) matches Some(Err(_)))
    }

    /// A finished scan that is handed the accepted records of an earlier scan again, behind which
    /// the file ends, has the same findings without a diagnosis.
    pub proof fn lemma_finds_again(
        self,
        begin: LogRecoveryState,
        bytes: Seq<u8>,
        earlier: ScanState,
    )
        requires
            self.finds_again(begin, bytes, earlier.accepted),
            self.states.last().phase is Finished,
            earlier.wf(),
            begin.file_id == earlier.file_id,
            begin.last_trusted == earlier.last_trusted,
            bytes.len() == earlier.position(),
        ensures
            self.states.last().accepted == earlier.accepted,
            self.states.last().validated_end() == earlier.validated_end(),
            self.states.last().suffix_ends() == earlier.suffix_ends(),
            self.states.last().phase == ScanPhase::Finished(None),
    {
        let events = self.events.len() as int;
        let scanned = self.states.last();
        earlier.lemma_extent();
        self.accepts_the_longest_continuing_prefix(events);
        if earlier.accepted.len() == scanned.accepted.len() + 1 {
            let refused = scanned.accepted.len() as int;
            assert(earlier.accepted[refused].id == scanned.expected());
        }
        assert(scanned.accepted =~= earlier.accepted);
        self.lemma_finish(events);
    }
}

impl LogRecoveryRun {
    /// Whether this run recovers, behind the same trusted end, the file that `first` has recovered.
    pub open spec fn repeats(self, first: LogRecoveryRun) -> bool {
        &&& first.proceeds()
        &&& first.states.last().stage is Finished
        &&& self.proceeds()
        &&& self.states[0] == first.states[0]
        &&& self.images[0].bytes == first.images.last().bytes
    }

    /// A repeated recovery goes on with every successful outcome and comes to its end: the trusted
    /// end is accepted again.
    pub proof fn a_repeated_recovery_goes_on(
        self,
        first: LogRecoveryRun,
        step: LogStep,
        after: FileImage,
        result: Result<LogRecoveryState, LogFileValidationError>,
    )
        requires
            self.repeats(first),
            LogRecoveryRun::is_outcome(
                self.states.last(),
                self.images.last(),
                step,
                after,
                result,
            ),
            !(step matches LogStep::File(FileReply::Failed(_))),
            !(step matches LogStep::Scan(Err(_))),
        ensures
            result is Ok,
            result->Ok_0.remaining() < self.states.last().remaining(),
    {
        self.lemma_matches_file(self.states.len() - 1);
        first.lemma_matches_file(first.states.len() - 1);
        first.a_finished_recovery_has_kept_the_accepted_records();
    }

    /// Recovering a recovered log again, with a decoder that hands out the accepted records again
    /// and then the end of the source, finds the same end and the same ends, removes no tail and
    /// leaves the contents as they are.
    pub proof fn a_repeated_recovery_changes_nothing(self, first: LogRecoveryRun, scan: ScanRun)
        requires
            self.repeats(first),
            self.states.last().stage is Finished,
            scan.states.last() == self.states.last().stage->Finished_0,
            scan.finds_again(
                self.states[0],
                self.images[0].bytes,
                first.states.last().stage->Finished_0.accepted,
            ),
        ensures
            ({
                let earlier = first.states.last().stage->Finished_0;
                let scanned = self.states.last().stage->Finished_0;
                &&& scanned.validated_end() == earlier.validated_end()
                &&& scanned.suffix_ends() == earlier.suffix_ends()
                &&& scanned.phase == ScanPhase::Finished(None)
                &&& self.images.last().bytes == self.images[0].bytes
            }),
    {
        let earlier = first.states.last().stage->Finished_0;
        let scanned = self.states.last().stage->Finished_0;
        self.lemma_matches_file(self.states.len() - 1);
        first.lemma_matches_file(first.states.len() - 1);
        first.a_finished_recovery_has_kept_the_accepted_records();
        scan.lemma_finds_again(self.states[0], self.images[0].bytes, earlier);
        let bytes = self.images[0].bytes;
        assert(bytes.take(scanned.position()) =~= bytes);
    }
}

} // verus!
