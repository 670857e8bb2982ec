//! What a handover leaves of a validated log and its index.
use vstd::prelude::*;

use crate::file::{FileReply, FileRequest};
use crate::index_writer::IndexWriteError;
use crate::indexed_log_validator::handover::{HandoverStage, HandoverState};
use crate::indexed_log_validator::validator_state::{ValidatorStage, ValidatorState};
use crate::indexed_log_validator::LogValidationError;
use crate::indexed_log_writer::writer_state::WriterState;
use crate::indexed_log_writer::IndexedLogWriteError;
use crate::io_error::IoError;
use crate::location::RecordEndLocation;
use crate::record::RecordOutputError;
use crate::validation::indexed_log_laws::PairImage;
use crate::validation::PairRequest;

verus! {

/// A handover together with the files it works on: `states` and `images` have one element more than
/// there are replies.
pub struct HandoverRun {
    pub states: Seq<HandoverState>,
    pub images: Seq<PairImage>,
    pub replies: Seq<FileReply>,
}

impl HandoverState {
    /// Whether the files in the state `image` may answer the outstanding request with `reply` and
    /// be in the state `after` then.
    pub open spec fn is_served(self, image: PairImage, reply: FileReply, after: PairImage) -> bool {
        match self.request() {
            PairRequest::Log(request) => {
                &&& image.log.serves(request, Seq::empty(), reply, after.log)
                &&& after.index == image.index
            },
            PairRequest::Index(request) => {
                &&& image.index.serves(request, Seq::empty(), reply, after.index)
                &&& after.log == image.log
            },
            _ => false,
        }
    }

    /// Number of successful outcomes that a handover still needs at most.
    pub open spec fn remaining(self) -> int {
        match self.stage {
            HandoverStage::SeekLog => 8,
            HandoverStage::SeekIndex => 7,
            HandoverStage::CheckLog => 6,
            HandoverStage::CheckIndex => 5,
            HandoverStage::FlushLog => 4,
            HandoverStage::SyncLog => 3,
            HandoverStage::FlushIndex => 2,
            HandoverStage::SyncIndex => 1,
            HandoverStage::Finished => 0,
        }
    }

    /// The files have the lengths that the handover relies on.
    pub open spec fn has_lengths_of(self, image: PairImage) -> bool {
        &&& image.log.bytes.len() == self.log_length
        &&& image.index.bytes.len() == self.index_length
    }

    /// A handover goes on with every successful outcome of files that have the validated lengths,
    /// and comes to its end.
    pub proof fn a_handover_of_unchanged_files_goes_on(
        self,
        image: PairImage,
        reply: FileReply,
        after: PairImage,
    )
        requires
            self.has_lengths_of(image),
            self.is_served(image, reply, after),
            !(reply is Failed),
        ensures
            self.is_unchanged(reply),
            self.has_lengths_of(after),
            self.at(self.next_for_writer()).remaining() < self.remaining(),
            self.at(self.next_for_completion()).remaining() < self.remaining(),
    {
    }

    /// A failed handover is the failure of the file that was asked; the synchronization on behalf of
    /// a writer fails as that writer's output.
    pub proof fn a_failed_handover_names_its_file(self, error: IoError)
        requires
            self.stage != HandoverStage::Finished,
        ensures
            ({
                let is_to_log = self.request() is Log;
                &&& self.io_error(error) == if is_to_log {
                    LogValidationError::LogIo(error)
                } else {
                    LogValidationError::IndexIo(error)
                }
                &&& self.request() == PairRequest::Log(FileRequest::SyncData) ==> self.writer_error(
                    error,
                ) == LogValidationError::Writer(
                    IndexedLogWriteError::Log(RecordOutputError::Io(error)),
                )
                &&& self.request() == PairRequest::Index(FileRequest::SyncData)
                    ==> self.writer_error(error) == LogValidationError::Writer(
                    IndexedLogWriteError::Index(IndexWriteError::Io(error)),
                )
                &&& self.request() != PairRequest::Log(FileRequest::SyncData) && self.request()
                    != PairRequest::Index(FileRequest::SyncData) ==> self.writer_error(error)
                    == self.io_error(error)
            }),
    {
    }

    /// A measurement of a file that has not the validated length is not passed over.
    pub proof fn a_changed_length_is_noticed(
        self,
        image: PairImage,
        reply: FileReply,
        after: PairImage,
    )
        requires
            self.is_served(image, reply, after),
            !(reply is Failed),
            self.stage == HandoverStage::CheckLog && image.log.bytes.len() != self.log_length
                || self.stage == HandoverStage::CheckIndex && image.index.bytes.len()
                != self.index_length,
        ensures
            !self.is_unchanged(reply),
    {
    }

    /// A handover asks for an operation until it has finished, and takes every outcome that a file
    /// can give.
    pub proof fn a_handover_asks_until_it_has_finished(
        self,
        image: PairImage,
        reply: FileReply,
        after: PairImage,
    )
        ensures
            self.is_served(image, reply, after) ==> self.is_answered_by(reply),
            self.request() == PairRequest::Finished <==> self.stage == HandoverStage::Finished,
            self.request() is Log || self.request() is Index || self.request()
                == PairRequest::Finished,
    {
    }
}

impl HandoverRun {
    pub open spec fn is_step(self, step: int, next: HandoverStage) -> bool {
        &&& self.states[step].is_served(
            self.images[step],
            self.replies[step],
            self.images[step + 1],
        )
        &&& !(self.replies[step] is Failed)
        &&& self.states[step].is_unchanged(self.replies[step])
        &&& self.states[step + 1] == self.states[step].at(next)
    }

    pub open spec fn has_its_lengths(self) -> bool {
        &&& self.states.len() == self.replies.len() + 1
        &&& self.images.len() == self.states.len()
    }

    /// Whether the run hands the pair of `validator` to a writer, so far without an error.
    pub open spec fn hands_to_writer(self, validator: ValidatorState) -> bool {
        &&& self.has_its_lengths()
        &&& self.states[0] == (HandoverState {
            file_id: validator.file_id,
            end: validator.end(),
            log_length: validator.log_length,
            index_length: validator.index_length,
            stage: HandoverStage::SeekLog,
        })
        &&& forall|step: int|
            0 <= step < self.replies.len() ==> #[trigger] self.is_step(
                step,
                self.states[step].next_for_writer(),
            )
    }

    /// Whether the run hands over the full pair of `validator`, so far without an error.
    pub open spec fn completes(self, validator: ValidatorState) -> bool {
        &&& self.has_its_lengths()
        &&& self.states[0] == (HandoverState {
            file_id: validator.file_id,
            end: validator.end(),
            log_length: validator.log_length,
            index_length: validator.index_length,
            stage: HandoverStage::CheckLog,
        })
        &&& forall|step: int|
            0 <= step < self.replies.len() ==> #[trigger] self.is_step(
                step,
                self.states[step].next_for_completion(),
            )
    }

    proof fn lemma_to_writer(self, validator: ValidatorState, step: int)
        requires
            self.hands_to_writer(validator),
            0 <= step < self.states.len(),
        ensures
            ({
                let state = self.states[step];
                let image = self.images[step];
                let begin = self.images[0];
                let log_is_positioned = image.log.cursor == validator.log_length;
                let index_is_positioned = image.index.cursor == validator.index_length;
                let log_is_measured = image.log.bytes.len() == validator.log_length;
                let index_is_measured = image.index.bytes.len() == validator.index_length;
                &&& state == self.states[0].at(state.stage)
                &&& image.log.bytes == begin.log.bytes
                &&& image.index.bytes == begin.index.bytes
                &&& match state.stage {
                    HandoverStage::SeekLog => true,
                    HandoverStage::SeekIndex => log_is_positioned,
                    HandoverStage::CheckLog => log_is_positioned && index_is_positioned,
                    HandoverStage::CheckIndex => {
                        log_is_positioned && index_is_positioned && log_is_measured
                    },
                    HandoverStage::SyncLog => {
                        &&& log_is_positioned && index_is_positioned
                        &&& log_is_measured && index_is_measured
                    },
                    HandoverStage::SyncIndex => {
                        &&& log_is_positioned && index_is_positioned
                        &&& log_is_measured && index_is_measured
                        &&& image.log.durable == image.log.bytes
                    },
                    HandoverStage::Finished => {
                        &&& log_is_positioned && index_is_positioned
                        &&& log_is_measured && index_is_measured
                        &&& image.log.durable == image.log.bytes
                        &&& image.index.durable == image.index.bytes
                    },
                    _ => false,
                }
            }),
        decreases step,
    {
        if step > 0 {
            self.lemma_to_writer(validator, step - 1);
            assert(self.is_step(step - 1, self.states[step - 1].next_for_writer()));
        }
    }

    /// A writer that takes over a pair appends behind its last record: both files are positioned at
    /// their ends, which are the end of the writer's last record and the end of that record's
    /// entry. The contents are those that were validated, and they are durable.
    pub proof fn a_writer_takes_over_at_the_end_of_the_pair(self, validator: ValidatorState)
        requires
            validator.wf(),
            validator.handover_refusal() is None,
            self.hands_to_writer(validator),
            self.states.last().stage == HandoverStage::Finished,
        ensures
            ({
                let end = self.states.last().end;
                let writer = WriterState::initial(self.states.last().file_id, end, end);
                let image = self.images.last();
                &&& self.states.last().file_id == validator.file_id
                &&& end == validator.end()
                &&& image.log.cursor == image.log.bytes.len()
                &&& image.log.bytes.len() == RecordEndLocation::offset(writer.buffered)
                &&& image.index.cursor == image.index.bytes.len()
                &&& image.index.bytes.len() == 8 * writer.count
                &&& writer.buffered == end && writer.flushed == end && writer.synced == end
                &&& writer.expected.stream_id == validator.file_id.stream_id
                &&& validator.file_id.file_number@ * 100_000 + writer.count <= u64::MAX
                    ==> writer.expected.sequence_number.0 == validator.file_id.file_number@
                    * 100_000 + writer.count
                &&& image.log.bytes == self.images[0].log.bytes
                &&& image.index.bytes == self.images[0].index.bytes
                &&& image.log.durable == image.log.bytes
                &&& image.index.durable == image.index.bytes
            }),
    {
        self.lemma_to_writer(validator, self.states.len() - 1);
        if validator.ends.len() > 0 {
            validator.file_id.a_place_has_its_record(validator.record_count() - 1);
        }
    }

    proof fn lemma_completing(self, validator: ValidatorState, step: int)
        requires
            self.completes(validator),
            0 <= step < self.states.len(),
        ensures
            ({
                let state = self.states[step];
                let image = self.images[step];
                let begin = self.images[0];
                let log_is_measured = image.log.bytes.len() == validator.log_length;
                let index_is_measured = image.index.bytes.len() == validator.index_length;
                &&& state == self.states[0].at(state.stage)
                &&& image.log.bytes == begin.log.bytes
                &&& image.index.bytes == begin.index.bytes
                &&& match state.stage {
                    HandoverStage::CheckLog => true,
                    HandoverStage::CheckIndex => log_is_measured,
                    HandoverStage::FlushLog | HandoverStage::SyncLog => {
                        log_is_measured && index_is_measured
                    },
                    HandoverStage::FlushIndex | HandoverStage::SyncIndex => {
                        &&& log_is_measured && index_is_measured
                        &&& image.log.durable == image.log.bytes
                    },
                    HandoverStage::Finished => {
                        &&& log_is_measured && index_is_measured
                        &&& image.log.durable == image.log.bytes
                        &&& image.index.durable == image.index.bytes
                    },
                    _ => false,
                }
            }),
        decreases step,
    {
        if step > 0 {
            self.lemma_completing(validator, step - 1);
            assert(self.is_step(step - 1, self.states[step - 1].next_for_completion()));
        }
    }

    /// A full pair that was handed over is durable, with the contents that were validated: the log
    /// ends with the file's last record and the index with that record's entry.
    pub proof fn a_completed_pair_is_durable(self, validator: ValidatorState)
        requires
            validator.wf(),
            validator.handover_refusal() is None,
            self.completes(validator),
            self.states.last().stage == HandoverStage::Finished,
        ensures
            ({
                let end = self.states.last().end;
                let image = self.images.last();
                &&& end == validator.end()
                &&& image.log.bytes.len() == RecordEndLocation::offset(end)
                &&& image.index.bytes.len() == 8 * RecordEndLocation::count(end)
                &&& image.log.bytes == self.images[0].log.bytes
                &&& image.index.bytes == self.images[0].index.bytes
                &&& image.log.durable == image.log.bytes
                &&& image.index.durable == image.index.bytes
            }),
    {
        self.lemma_completing(validator, self.states.len() - 1);
        if validator.ends.len() > 0 {
            validator.file_id.a_place_has_its_record(validator.record_count() - 1);
        }
    }

    /// The request that was answered successfully by the `step`-th reply.
    pub open spec fn answers(self, step: int, request: PairRequest) -> bool {
        &&& 0 <= step < self.replies.len()
        &&& self.states[step].request() == request
        &&& !(self.replies[step] is Failed)
    }

    /// Both files of a full pair are flushed before they are synchronized, the log before the
    /// index. A flush of each file lies before its synchronization.
    pub proof fn a_completed_pair_was_flushed_first(self, validator: ValidatorState)
        requires
            self.completes(validator),
            self.states.last().stage == HandoverStage::Finished,
        ensures
            self.replies.len() == 6,
            self.answers(2, PairRequest::Log(FileRequest::Flush)),
            self.answers(3, PairRequest::Log(FileRequest::SyncData)),
            self.answers(4, PairRequest::Index(FileRequest::Flush)),
            self.answers(5, PairRequest::Index(FileRequest::SyncData)),
    {
        let states = self.states;
        if self.replies.len() > 0 {
            assert(self.is_step(0, states[0].next_for_completion()));
        }
        if self.replies.len() > 1 {
            assert(self.is_step(1, states[1].next_for_completion()));
        }
        if self.replies.len() > 2 {
            assert(self.is_step(2, states[2].next_for_completion()));
        }
        if self.replies.len() > 3 {
            assert(self.is_step(3, states[3].next_for_completion()));
        }
        if self.replies.len() > 4 {
            assert(self.is_step(4, states[4].next_for_completion()));
        }
        if self.replies.len() > 5 {
            assert(self.is_step(5, states[5].next_for_completion()));
        }
        if self.replies.len() > 6 {
            assert(self.is_step(6, states[6].next_for_completion()));
        }
    }
}

impl ValidatorState {
    /// A validated pair can be handed over exactly when no operation is under way and both of its
    /// files are known to be right.
    pub proof fn exactly_a_right_pair_is_handed_over(self)
        ensures
            self.handover_refusal() is None <==> {
                &&& self.stage == ValidatorStage::Idle
                &&& self.report is Some
                &&& self.log_ready
                &&& self.index_ready
            },
    {
    }
}

} // verus!
