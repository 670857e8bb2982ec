//! What recovery does to a log and its index together.
use vstd::prelude::*;

use crate::file::{FileImage, FileReply, FileRequest};
use crate::index_entry;
use crate::index_entry::INDEX_ENTRY_LEN;
use crate::index_writer::IndexWriteError;
use crate::location::{RecordEndLocation, RECORDS_PER_FILE};
use crate::record::RecordReadError;
use crate::storage::StorageError;
use crate::validation::index_file_validator::IndexStage;
use crate::validation::indexed_log_validator::{
    PairRecoveryResult, PairRecoveryState, PairRequest, PairStage,
};
use crate::validation::log_file_laws::{self, LogRecoveryRun, LogStep};
use crate::validation::log_file_validator::LogStage;
use crate::validation::record_scan::{ScanPhase, ScanState};
use crate::validation::record_scan_laws::ScanRun;
use crate::validation::{
    IndexFileValidationError, IndexedLogValidationError, LogFileValidationError,
};

verus! {

/// A log and its index.
#[verifier::ext_equal]
pub struct PairImage {
    pub log: FileImage,
    pub index: FileImage,
}

impl PairRecoveryState {
    /// What the recovered pair looks like.
    pub open spec fn is_recovered(self, scanned: ScanState, begin: PairImage, image: PairImage) -> bool {
        let index = self.index_recovery(scanned);
        &&& self.is_scanned_by(scanned)
        &&& scanned.fits(begin.log.bytes)
        &&& index.trusts(begin.index.bytes)
        &&& image.log.bytes == begin.log.bytes.take(scanned.position())
        &&& image.log.durable == image.log.bytes
        &&& image.index.bytes == index.recovered(begin.index.bytes)
        &&& image.index.durable == image.index.bytes
    }

    /// What holds of the files between two operations, `begin` being the files as they were
    /// opened.
    pub open spec fn matches_files(self, begin: PairImage, image: PairImage) -> bool {
        &&& self.wf()
        &&& match self.stage {
            PairStage::OpenLog | PairStage::OpenIndex => image == begin,
            PairStage::Log(log) => {
                &&& log.matches_file(begin.log.bytes, image.log)
                &&& image.index == begin.index
            },
            PairStage::Index(scanned, index) => {
                &&& scanned.fits(begin.log.bytes)
                &&& image.log.bytes == begin.log.bytes.take(scanned.position())
                &&& image.log.durable == image.log.bytes
                &&& index.matches_file(begin.index.bytes, image.index)
            },
            PairStage::SeekLog(scanned) => self.is_recovered(scanned, begin, image),
            PairStage::SeekIndex(scanned) => {
                &&& self.is_recovered(scanned, begin, image)
                &&& image.log.cursor == image.log.bytes.len()
            },
            PairStage::Finished(scanned) => {
                &&& self.is_recovered(scanned, begin, image)
                &&& scanned.count() < RECORDS_PER_FILE ==> {
                    &&& image.log.cursor == image.log.bytes.len()
                    &&& image.index.cursor == image.index.bytes.len()
                }
            },
        }
    }
}

impl PairRecoveryState {
    /// Recovery asks for something until it has finished, and takes every outcome that a file can
    /// give.
    pub proof fn recovery_asks_until_it_has_finished(
        self,
        image: FileImage,
        reply: FileReply,
        after: FileImage,
    )
        requires
            self.wf(),
        ensures
            self.request() == PairRequest::Finished <==> self.stage is Finished,
            self.request() matches PairRequest::Log(request) ==> image.serves(
                request,
                Seq::empty(),
                reply,
                after,
            ) ==> self.is_answered_by(reply),
            self.request() matches PairRequest::Index(request) ==> image.serves(
                request,
                self.offered(),
                reply,
                after,
            ) ==> self.is_answered_by(reply),
    {
    }

    /// The log is opened before the index, and recovery begins with the log once both are open. A
    /// trusted end that no record of the file has is refused then, and a file that cannot be opened
    /// at once.
    pub proof fn both_files_are_opened_before_recovery(
        self,
        failure: Option<StorageError>,
        after: PairRecoveryResult,
    )
        requires
            self.stage is OpenLog || self.stage is OpenIndex,
            self.opened(failure, after),
        ensures
            match failure {
                Some(error) => after == PairRecoveryResult::Err(
                    IndexedLogValidationError::Storage(error),
                ),
                None => if self.stage is OpenLog {
                    after matches Ok(next) && next.request() == PairRequest::OpenIndex
                        && next.last_trusted == self.last_trusted && next.file_id == self.file_id
                } else if self.last_trusted matches Some(end) && (end.record_id.stream_id
                    != self.file_id.stream_id || end.record_id.sequence_number.0 / 100_000
                    != self.file_id.file_number@) {
                    after matches Err(
                        IndexedLogValidationError::Log(LogFileValidationError::InvalidStart(_)),
                    )
                } else {
                    &&& after matches Ok(next)
                    &&& next.request() == PairRequest::Log(FileRequest::Length)
                    &&& next.last_trusted == self.last_trusted
                    &&& next.file_id == self.file_id
                },
            },
    {
    }
}

/// One step of a pair's recovery: a file operation's outcome or the outcome of the scan.
pub enum PairStep {
    File(FileReply),
    Scan(Result<ScanState, RecordReadError>),
}

/// A pair's recovery together with the files it works on, from the time when both are open:
/// `states` and `images` have one element more than there are steps.
pub struct PairRecoveryRun {
    pub states: Seq<PairRecoveryState>,
    pub images: Seq<PairImage>,
    pub steps: Seq<PairStep>,
}

impl PairRecoveryRun {
    /// Whether `step` is what the files, or the decoder reading the log, give in this state,
    /// `after` being the files then, and `result` what comes of it.
    pub open spec fn is_outcome(
        state: PairRecoveryState,
        image: PairImage,
        step: PairStep,
        after: PairImage,
        result: PairRecoveryResult,
    ) -> bool {
        match (step, state.request()) {
            (PairStep::File(reply), PairRequest::Log(request)) => {
                &&& image.log.serves(request, Seq::empty(), reply, after.log)
                &&& after.index == image.index
                &&& state.resumed(reply, result)
            },
            (PairStep::File(reply), PairRequest::Index(request)) => {
                &&& image.index.serves(request, state.offered(), reply, after.index)
                &&& after.log == image.log
                &&& state.resumed(reply, result)
            },
            (PairStep::Scan(findings), PairRequest::ScanLog) => {
                &&& after.log.bytes == image.log.bytes
                &&& after.log.durable == image.log.durable
                &&& after.index == image.index
                &&& findings matches Ok(scanned) ==> state.is_scanned_by(scanned) && scanned.fits(
                    image.log.bytes,
                )
                &&& state.scanned(findings, result)
            },
            _ => false,
        }
    }

    pub open spec fn is_step(self, step: int) -> bool {
        PairRecoveryRun::is_outcome(
            self.states[step],
            self.images[step],
            self.steps[step],
            self.images[step + 1],
            Ok(self.states[step + 1]),
        )
    }

    /// Whether the run begins a recovery of two open files and goes on with it, so far without an
    /// error.
    pub open spec fn proceeds(self) -> bool {
        &&& self.states.len() == self.steps.len() + 1
        &&& self.images.len() == self.states.len()
        &&& self.states[0].wf()
        &&& self.states[0].stage == PairStage::Log(self.states[0].log_recovery())
        &&& forall|step: int| 0 <= step < self.steps.len() ==> #[trigger] self.is_step(step)
    }

    /// A step keeps the relation between the recovery and its files.
    pub proof fn lemma_step_matches_files(
        begin: PairImage,
        state: PairRecoveryState,
        image: PairImage,
        step: PairStep,
        after: PairImage,
        next: PairRecoveryState,
    )
        requires
            state.matches_files(begin, image),
            PairRecoveryRun::is_outcome(state, image, step, after, Ok(next)),
        ensures
            next.matches_files(begin, after),
            next.last_trusted == state.last_trusted,
            next.file_id == state.file_id,
    {
        match state.stage {
            PairStage::Log(log) => {
                let log_step = match step {
                    PairStep::File(reply) => LogStep::File(reply),
                    PairStep::Scan(findings) => LogStep::Scan(findings),
                };
                let next_log = match next.stage {
                    PairStage::Log(next_log) => next_log,
                    PairStage::Index(scanned, _) => log.at(LogStage::Finished(scanned)),
                    _ => log,
                };
                LogRecoveryRun::lemma_step_matches_file(
                    begin.log.bytes,
                    log,
                    image.log,
                    log_step,
                    after.log,
                    next_log,
                );
                if let PairStage::Index(scanned, index) = next.stage {
                    scanned.lemma_validated_offset();
                    index_entry::lemma_encoded_length(scanned.suffix_ends());
                }
            },
            PairStage::Index(scanned, index) => {
                if let PairStep::File(reply) = step {
                    let next_index = match next.stage {
                        PairStage::Index(_, next_index) => next_index,
                        _ => index.at(IndexStage::Finished, index.output),
                    };
                    index.lemma_step_matches_file(
                        begin.index.bytes,
                        image.index,
                        reply,
                        next_index,
                        after.index,
                    );
                }
            },
            PairStage::SeekLog(scanned) => {
                scanned.lemma_validated_offset();
                scanned.lemma_extent();
            },
            PairStage::SeekIndex(scanned) => {
                let index = state.index_recovery(scanned);
                index.a_recovered_index_is_dense(begin.index.bytes);
            },
            _ => {},
        }
    }

    proof fn lemma_matches_files(self, step: int)
        requires
            self.proceeds(),
            0 <= step < self.states.len(),
        ensures
            self.states[step].matches_files(self.images[0], self.images[step]),
            self.states[step].last_trusted == self.states[0].last_trusted,
            self.states[step].file_id == self.states[0].file_id,
        decreases step,
    {
        if step > 0 {
            self.lemma_matches_files(step - 1);
            assert(self.is_step(step - 1));
            PairRecoveryRun::lemma_step_matches_files(
                self.images[0],
                self.states[step - 1],
                self.images[step - 1],
                self.steps[step - 1],
                self.images[step],
                self.states[step],
            );
        }
    }

    /// A finished recovery has left both files durable and in agreement: the log ends with the last
    /// accepted record, the index has exactly one entry per record, the entries behind the trusted
    /// ones are the accepted records' ends, and both handles of a file with room for more records
    /// are positioned to append.
    pub proof fn a_finished_recovery_has_left_an_agreeing_pair(self)
        requires
            self.proceeds(),
            self.states.last().stage is Finished,
        ensures
            ({
                let scanned = self.states.last().stage->Finished_0;
                let begin = self.images[0];
                let image = self.images.last();
                &&& scanned.wf()
                &&& scanned.file_id == self.states[0].file_id
                &&& scanned.last_trusted == self.states[0].last_trusted
                &&& image.log.bytes == begin.log.bytes.take(scanned.position())
                &&& image.log.bytes.len() == scanned.position()
                &&& image.log.durable == image.log.bytes
                &&& image.index.bytes.len() == INDEX_ENTRY_LEN * scanned.count()
                &&& image.index.bytes == begin.index.bytes.take(
                    INDEX_ENTRY_LEN * scanned.trusted_count(),
                ) + index_entry::encode(scanned.suffix_ends())
                &&& image.index.durable == image.index.bytes
                &&& forall|i: int|
                    0 <= i < scanned.trusted_count() ==> index_entry::entry(image.index.bytes, i)
                        == #[trigger] index_entry::entry(begin.index.bytes, i)
                &&& forall|i: int|
                    0 <= i < scanned.accepted.len() ==> index_entry::entry(
                        image.index.bytes,
                        scanned.trusted_count() + i,
                    ) == #[trigger] scanned.suffix_ends()[i]
                &&& scanned.count() > 0 ==> index_entry::entry(
                    image.index.bytes,
                    scanned.count() - 1,
                ) == image.log.bytes.len()
                &&& scanned.count() < RECORDS_PER_FILE ==> {
                    &&& image.log.cursor == image.log.bytes.len()
                    &&& image.index.cursor == image.index.bytes.len()
                }
            }),
    {
        self.lemma_matches_files(self.states.len() - 1);
        let scanned = self.states.last().stage->Finished_0;
        let begin = self.images[0];
        let index = self.states.last().index_recovery(scanned);
        index.a_recovered_index_is_dense(begin.index.bytes);
        scanned.lemma_validated_offset();
        scanned.lemma_extent();
        if scanned.accepted.len() > 0 {
            let last: int = scanned.accepted.len() - 1;
            assert(scanned.accepted.take(last + 1) =~= scanned.accepted);
            assert(scanned.suffix_ends()[last] == scanned.position());
        } else if scanned.count() > 0 {
            assert(index_entry::entry(begin.index.bytes, scanned.count() - 1) == scanned.start());
            assert(scanned.position() == scanned.start());
        }
    }

    /// The scan begins right behind the trusted end, over the log as it was opened.
    pub proof fn the_scan_begins_behind_the_trusted_end(self, step: int)
        requires
            self.proceeds(),
            0 <= step < self.states.len(),
            self.states[step].request() == PairRequest::ScanLog,
        ensures
            self.images[step].log.bytes == self.images[0].log.bytes,
            self.images[step].log.cursor == RecordEndLocation::offset(self.states[0].last_trusted),
            self.images[step].index == self.images[0].index,
    {
        self.lemma_matches_files(step);
    }

    /// The index is not touched before the log has been recovered and made durable.
    pub proof fn the_log_is_recovered_before_the_index(self, step: int)
        requires
            self.proceeds(),
            0 <= step < self.states.len(),
            self.images[step].index != self.images[0].index,
        ensures
            self.images[step].log.durable == self.images[step].log.bytes,
    {
        self.lemma_matches_files(step);
    }

    /// Whether `next` is further in its recovery than `state`: at a later stage, or at the same one
    /// with fewer outcomes to come.
    pub open spec fn is_further(state: PairRecoveryState, next: PairRecoveryState) -> bool {
        match (state.stage, next.stage) {
            (PairStage::Log(log), PairStage::Log(next_log)) => {
                0 <= next_log.remaining() < log.remaining()
            },
            (PairStage::Log(_), PairStage::Index(_, _)) => true,
            (PairStage::Index(_, index), PairStage::Index(_, next_index)) => {
                0 <= next_index.remaining() < index.remaining()
            },
            (PairStage::Index(_, _), PairStage::SeekLog(_)) => true,
            (PairStage::Index(_, _), PairStage::Finished(_)) => true,
            (PairStage::SeekLog(_), PairStage::SeekIndex(_)) => true,
            (PairStage::SeekIndex(_), PairStage::Finished(_)) => true,
            _ => false,
        }
    }

    /// Recovery goes on with every successful outcome that accepts some of the offered bytes, and
    /// comes to its end, wherever the trusted end is a possible one at or before the end of the log
    /// and the index holds it in its entry.
    pub proof fn recovery_behind_a_possible_end_goes_on(
        self,
        step: PairStep,
        after: PairImage,
        result: PairRecoveryResult,
    )
        requires
            self.proceeds(),
            PairRecoveryRun::is_outcome(
                self.states.last(),
                self.images.last(),
                step,
                after,
                result,
            ),
            log_file_laws::is_possible_start(
                self.states[0].file_id,
                self.states[0].last_trusted,
                self.images[0].log.bytes.len() as int,
            ),
            self.states[0].last_trusted matches Some(end) ==> {
                let count = end.record_id.sequence_number.0 as int % 100_000 + 1;
                &&& self.images[0].index.bytes.len() >= 8 * count
                &&& index_entry::entry(self.images[0].index.bytes, count - 1) == end.position.0
            },
            !(step matches PairStep::File(FileReply::Failed(_))),
            !(step matches PairStep::File(FileReply::Accepted(0))),
            !(step matches PairStep::Scan(Err(_))),
        ensures
            result is Ok,
            PairRecoveryRun::is_further(self.states.last(), result->Ok_0),
    {
        let last: int = self.states.len() - 1;
        self.lemma_matches_files(last);
        let state = self.states[last];
        if let PairStage::Index(scanned, index) = state.stage {
            if let PairStep::File(reply) = step {
                let outcome = match result {
                    Err(IndexedLogValidationError::Index(error)) => Err(error),
                    Ok(next) => match next.stage {
                        PairStage::Index(_, next_index) => Ok(next_index),
                        _ => Ok(index.at(IndexStage::Finished, index.output)),
                    },
                    _ => Ok(index),
                };
                index.lemma_goes_on(
                    self.images[0].index.bytes,
                    self.images[last].index,
                    reply,
                    after.index,
                    outcome,
                );
            }
        }
    }

    /// A failed recovery names its reason: a trusted end or a trusted entry is refused only where it
    /// is not as it should be, and any other error is a file's or the decoder's.
    pub proof fn a_failed_recovery_names_its_reason(
        self,
        step: PairStep,
        after: PairImage,
        error: IndexedLogValidationError,
    )
        requires
            self.proceeds(),
            PairRecoveryRun::is_outcome(
                self.states.last(),
                self.images.last(),
                step,
                after,
                Err(error),
            ),
        ensures
            match step {
                PairStep::Scan(findings) => {
                    &&& findings matches Err(failure)
                    &&& error == IndexedLogValidationError::Log(
                        LogFileValidationError::Read(failure),
                    )
                },
                PairStep::File(FileReply::Failed(failure)) => {
                    match self.states.last().request() {
                        PairRequest::Log(_) => error == IndexedLogValidationError::Log(
                            LogFileValidationError::Io(failure),
                        ),
                        PairRequest::Index(request) => {
                            error == IndexedLogValidationError::Index(
                                if request == FileRequest::Write || request == FileRequest::Flush {
                                    IndexFileValidationError::Write(IndexWriteError::Io(failure))
                                } else {
                                    IndexFileValidationError::Io(failure)
                                },
                            )
                        },
                        _ => false,
                    }
                },
                PairStep::File(_) => match error {
                    IndexedLogValidationError::Log(LogFileValidationError::InvalidStart(_)) => {
                        !log_file_laws::is_possible_start(
                            self.states[0].file_id,
                            self.states[0].last_trusted,
                            self.images[0].log.bytes.len() as int,
                        )
                    },
                    IndexedLogValidationError::Index(
                        IndexFileValidationError::TrustedIndexMismatch { .. },
                    ) => {
                        &&& self.states[0].last_trusted matches Some(end)
                        &&& {
                            let count = end.record_id.sequence_number.0 as int % 100_000 + 1;
                            let bytes = self.images[0].index.bytes;
                            bytes.len() < 8 * count || index_entry::entry(bytes, count - 1)
                                != end.position.0
                        }
                    },
                    IndexedLogValidationError::Index(IndexFileValidationError::Write(_)) => {
                        step == PairStep::File(FileReply::Accepted(0))
                    },
                    _ => false,
                },
            },
    {
        let last: int = self.states.len() - 1;
        self.lemma_matches_files(last);
        let state = self.states[last];
        if let PairStage::Index(scanned, index) = state.stage {
            if let PairStep::File(reply) = step {
                if index.stage == IndexStage::ReadEntry && !(reply is Failed) {
                    let image = self.images[last].index;
                    assert(image.bytes.subrange(image.cursor as int, image.cursor as int + 8)
                        == self.images[0].index.bytes.subrange(
                        8 * (index.trusted_count() - 1),
                        8 * (index.trusted_count() - 1) + 8,
                    ));
                }
            }
        }
    }

    /// Whether this run recovers, behind the same trusted end, the pair that `first` has recovered.
    pub open spec fn repeats(self, first: PairRecoveryRun) -> bool {
        &&& first.proceeds()
        &&& first.states.last().stage is Finished
        &&& self.proceeds()
        &&& self.states[0] == first.states[0]
        &&& self.images[0].log.bytes == first.images.last().log.bytes
        &&& self.images[0].index.bytes == first.images.last().index.bytes
    }

    /// A repeated recovery goes on with every successful outcome that accepts some of the offered
    /// bytes: the trusted end and the trusted entry are accepted again.
    pub proof fn a_repeated_recovery_goes_on(
        self,
        first: PairRecoveryRun,
        step: PairStep,
        after: PairImage,
        result: PairRecoveryResult,
    )
        requires
            self.repeats(first),
            PairRecoveryRun::is_outcome(
                self.states.last(),
                self.images.last(),
                step,
                after,
                result,
            ),
            !(step matches PairStep::File(FileReply::Failed(_))),
            !(step matches PairStep::File(FileReply::Accepted(0))),
            !(step matches PairStep::Scan(Err(_))),
        ensures
            result is Ok,
    {
        let last: int = self.states.len() - 1;
        self.lemma_matches_files(last);
        first.lemma_matches_files(first.states.len() - 1);
        first.a_finished_recovery_has_left_an_agreeing_pair();
        let earlier = first.states.last().stage->Finished_0;
        earlier.lemma_validated_offset();
        let state = self.states[last];
        let index = first.states.last().index_recovery(earlier);
        if let PairStage::Index(scanned, recovery) = state.stage {
            index.a_later_recovery_supersedes_an_earlier_one(recovery, first.images[0].index.bytes);
            if let PairStep::File(reply) = step {
                if let Err(IndexedLogValidationError::Index(error)) = result {
                    recovery.lemma_goes_on(
                        self.images[0].index.bytes,
                        self.images[last].index,
                        reply,
                        after.index,
                        Err(error),
                    );
                }
            }
        }
    }

    /// Recovering a recovered pair again, with a decoder that hands out the accepted records again
    /// and then the end of the source, finds the same end and the same ends, removes no tail and
    /// leaves both files as they are.
    pub proof fn a_repeated_recovery_changes_nothing(self, first: PairRecoveryRun, scan: ScanRun)
        requires
            self.repeats(first),
            self.states.last().stage is Finished,
            scan.states.last() == self.states.last().stage->Finished_0,
            scan.finds_again(
                self.states[0].log_recovery(),
                self.images[0].log.bytes,
                first.states.last().stage->Finished_0.accepted,
            ),
        ensures
            ({
                let earlier = first.states.last().stage->Finished_0;
                let scanned = self.states.last().stage->Finished_0;
                &&& scanned.validated_end() == earlier.validated_end()
                &&& scanned.suffix_ends() == earlier.suffix_ends()
                &&& scanned.phase == ScanPhase::Finished(None)
                &&& self.images.last().log.bytes == self.images[0].log.bytes
                &&& self.images.last().index.bytes == self.images[0].index.bytes
            }),
    {
        let earlier = first.states.last().stage->Finished_0;
        let scanned = self.states.last().stage->Finished_0;
        self.lemma_matches_files(self.states.len() - 1);
        first.lemma_matches_files(first.states.len() - 1);
        self.a_finished_recovery_has_left_an_agreeing_pair();
        first.a_finished_recovery_has_left_an_agreeing_pair();
        scan.lemma_finds_again(
            self.states[0].log_recovery(),
            self.images[0].log.bytes,
            earlier,
        );
        let begin = self.images[0];
        let trusted = INDEX_ENTRY_LEN * scanned.trusted_count();
        assert(begin.log.bytes.take(scanned.position()) =~= begin.log.bytes);
        assert(begin.index.bytes.take(trusted) =~= first.images[0].index.bytes.take(trusted));
    }
}

} // verus!
