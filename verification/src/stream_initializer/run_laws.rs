//! What a whole initialization asks of the storage, and what the stream holds once it has finished.
use vstd::prelude::*;

use crate::io_error::IoErrorKind;
use crate::location::{LogFileId, LogFileIdRangeError, RecordEndLocation};
use crate::storage::{StorageError, StoragePath};
use crate::stream_checkpoint::StreamCheckpoint;
use crate::stream_initializer::initialization_state::{
    ActiveEnd, InitializationView, PairOutcome, PairValidation,
};
use crate::stream_initializer::stream_initializer::{InitializationStage, InitializerState};
use crate::stream_initializer::{InitializationRequest, StreamInitializationError};
use crate::validation::IndexedLogValidationError;

verus! {

/// What the storage holds of a stream.
#[verifier::ext_equal]
pub struct StreamImage {
    /// The numbers of the files whose log exists.
    pub logs: Set<int>,
    /// The numbers of the files whose index exists.
    pub indexes: Set<int>,
    /// The numbers of the files that were recovered as complete ones.
    pub complete: Set<int>,
    /// The end of the last recovered record.
    pub last_end: Option<RecordEndLocation>,
    /// The stored checkpoint.
    pub checkpoint: Option<StreamCheckpoint>,
}

/// A successful outcome of a request to the storage, or the outcome of recovering a pair.
pub enum InitializationEvent {
    CheckpointRead(Option<StreamCheckpoint>),
    MaximumFound(Option<LogFileId>),
    PairRecovered(PairOutcome),
    PairsRemoved,
    PairCreated,
    CheckpointPublished,
}

impl StreamImage {
    /// Whether `maximum` is the highest log file of the stream.
    pub open spec fn is_maximum(self, maximum: Option<LogFileId>) -> bool {
        match maximum {
            None => forall|number: int| !#[trigger] self.logs.contains(number),
            Some(file_id) => {
                &&& self.logs.contains(file_id.file_number@ as int)
                &&& forall|number: int| #[trigger]
                    self.logs.contains(number) ==> number <= file_id.file_number@
            },
        }
    }

    /// Whether recovering `file_id` here may have this outcome: a recovered pair exists and its
    /// last record belongs to it, and a log that is reported missing does not exist.
    pub open spec fn allows(self, file_id: LogFileId, pair: PairOutcome) -> bool {
        let number = file_id.file_number@ as int;
        match pair {
            PairOutcome::Complete { end } => {
                &&& self.logs.contains(number)
                &&& end.record_id.stream_id == file_id.stream_id
                &&& end.record_id.sequence_number.0 == number * 100_000 + 99_999
            },
            PairOutcome::Partial { end } => {
                &&& self.logs.contains(number)
                &&& end matches Some(end) ==> {
                    &&& end.record_id.stream_id == file_id.stream_id
                    &&& number * 100_000 <= end.record_id.sequence_number.0 < number * 100_000
                        + 99_999
                }
            },
            PairOutcome::Failed(
                IndexedLogValidationError::Storage(StorageError::Io { path, source, .. }),
            ) => {
                path == StoragePath::Log(file_id) && source.kind == IoErrorKind::NotFound
                    ==> !self.logs.contains(number)
            },
            PairOutcome::Failed(_) => true,
        }
    }

    /// What the storage holds after recovering `file_id`: a recovered pair has an index.
    pub open spec fn recovered(self, file_id: LogFileId, pair: PairOutcome) -> StreamImage {
        let number = file_id.file_number@ as int;
        match pair {
            PairOutcome::Complete { end } => StreamImage {
                complete: self.complete.insert(number),
                indexes: self.indexes.insert(number),
                last_end: Some(end),
                ..self
            },
            PairOutcome::Partial { end } => StreamImage {
                indexes: self.indexes.insert(number),
                last_end: if end is Some {
                    end
                } else {
                    self.last_end
                },
                ..self
            },
            _ => self,
        }
    }
}

/// An initialization together with the stream in the storage: `states` and `images` have one
/// element more than there are events.
pub struct InitializationRun {
    pub states: Seq<InitializerState>,
    pub images: Seq<StreamImage>,
    pub events: Seq<InitializationEvent>,
}

impl InitializationRun {
    /// Whether `event` is what the storage gives to the outstanding request, `changed` being the
    /// stream then, and what the initialization goes on with.
    pub open spec fn is_outcome(
        before: InitializerState,
        image: StreamImage,
        event: InitializationEvent,
        after: InitializerState,
        changed: StreamImage,
    ) -> bool {
        match (event, before.request()) {
            (
                InitializationEvent::CheckpointRead(checkpoint),
                InitializationRequest::ReadCheckpoint,
            ) => {
                &&& checkpoint == image.checkpoint
                &&& changed == image
                &&& before.known.loaded(Ok(checkpoint), after.known, Ok(()))
                &&& after.stage == InitializationStage::DiscoverLogFiles
            },
            (InitializationEvent::MaximumFound(maximum), InitializationRequest::FindMaximumLog) => {
                &&& image.is_maximum(maximum)
                &&& changed == image
                &&& before.known.discovered(Ok(maximum), before.discovered(maximum), Ok(()))
                &&& before.discovered(maximum).began_validation(
                    after.known,
                    Ok(after.known.pending),
                )
                &&& InitializerState::follows_validation(after.known, after.stage)
            },
            (
                InitializationEvent::PairRecovered(pair),
                InitializationRequest::ValidatePair(pending),
            ) => {
                &&& image.allows(pending.file_id, pair)
                &&& changed == image.recovered(pending.file_id, pair)
                &&& before.known.recovered_pair(
                    before.known.pending->0,
                    before.known.maximum->0,
                    pair,
                    after.known,
                    Ok(after.known.pending),
                )
                &&& InitializerState::follows_validation(after.known, after.stage)
            },
            (
                InitializationEvent::PairsRemoved,
                InitializationRequest::RemovePairs { first, last },
            ) => {
                &&& changed == (StreamImage {
                    logs: changed.logs,
                    indexes: changed.indexes,
                    ..image
                })
                &&& forall|number: int| #[trigger]
                    changed.indexes.contains(number) <==> image.indexes.contains(number) && !(
                    first.file_number@ <= number <= last.file_number@)
                &&& forall|number: int| #[trigger]
                    changed.logs.contains(number) <==> image.logs.contains(number) && !(
                    first.file_number@ <= number <= last.file_number@)
                &&& after.known == before.known
                &&& InitializerState::follows_cleanup(after.known, after.stage)
            },
            (InitializationEvent::PairCreated, InitializationRequest::CreatePair(file_id)) => {
                &&& changed == (StreamImage {
                    logs: image.logs.insert(file_id.file_number@ as int),
                    indexes: image.indexes.insert(file_id.file_number@ as int),
                    ..image
                })
                &&& after.known == (InitializationView {
                    active: Some(
                        ActiveEnd { file_id: before.stage->PrepareActivePair_0, end: None },
                    ),
                    first_to_remove: None,
                    ..before.known
                })
                &&& InitializerState::follows_preparation(after.known, after.stage)
            },
            (
                InitializationEvent::CheckpointPublished,
                InitializationRequest::PublishCheckpoint(checkpoint),
            ) => {
                &&& changed == (StreamImage { checkpoint: Some(checkpoint), ..image })
                &&& after.known == before.known
                &&& after.stage == InitializationStage::Finished
            },
            _ => false,
        }
    }

    pub open spec fn is_step(self, step: int) -> bool {
        InitializationRun::is_outcome(
            self.states[step],
            self.images[step],
            self.events[step],
            self.states[step + 1],
            self.images[step + 1],
        )
    }

    /// Whether the run begins an initialization and goes on with it, so far without an error.
    pub open spec fn proceeds(self) -> bool {
        &&& self.states.len() == self.events.len() + 1
        &&& self.images.len() == self.states.len()
        &&& self.states[0] == (InitializerState {
            known: InitializationView::new(self.states[0].known.stream_id),
            stage: InitializationStage::LoadCheckpoint,
        })
        &&& self.images[0].complete == Set::<int>::empty()
        &&& self.images[0].last_end is None
        &&& forall|step: int| 0 <= step < self.states.len() ==> (#[trigger] self.states[step]).wf()
        &&& forall|step: int| 0 <= step < self.events.len() ==> #[trigger] self.is_step(step)
    }

    /// The number of the file that recovery begins with.
    pub open spec fn first_number(self) -> int {
        match self.images[0].checkpoint {
            None => 0,
            Some(checkpoint) => checkpoint.end.record_id.sequence_number.0 as int / 100_000,
        }
    }

    /// Whether all files from the first one up to, but not with, `number` were recovered as
    /// complete ones.
    pub open spec fn is_complete_before(self, step: int, number: int) -> bool {
        forall|earlier: int|
            self.first_number() <= earlier < number
                ==> #[trigger] self.images[step].complete.contains(earlier)
    }

    /// Whether no log of a file from `number` on exists.
    pub open spec fn has_none_from(self, step: int, number: int) -> bool {
        forall|later: int| #[trigger] self.images[step].logs.contains(later) ==> later < number
    }

    /// Whether no index of a file from `number` on, up to the highest log that was found, exists.
    pub open spec fn has_no_index_from(self, step: int, number: int) -> bool {
        self.states[step].known.maximum matches Some(maximum) ==> forall|later: int| #[trigger]
            self.images[step].indexes.contains(later) && later <= maximum.file_number@ ==> later
                < number
    }

    /// Whether the discovered maximum bounds the logs that exist.
    pub open spec fn is_bounded(self, step: int) -> bool {
        match self.states[step].known.maximum {
            None => self.has_none_from(step, 0),
            Some(maximum) => self.has_none_from(step, maximum.file_number@ + 1),
        }
    }

    /// What holds of the stream between two requests.
    spec fn matches_storage(self, step: int) -> bool {
        let known = self.states[step].known;
        let image = self.images[step];
        &&& known.stream_id == self.states[0].known.stream_id
        &&& known.recovered == image.last_end
        &&& self.states[step].stage != InitializationStage::LoadCheckpoint ==> known.checkpoint
            == self.images[0].checkpoint
        &&& self.states[step].stage != InitializationStage::Finished ==> image.checkpoint
            == self.images[0].checkpoint
        &&& match self.states[step].stage {
            InitializationStage::LoadCheckpoint => image == self.images[0],
            InitializationStage::DiscoverLogFiles => image == self.images[0],
            InitializationStage::ValidateFiles => {
                let pending = known.pending->0.file_id.file_number@ as int;
                &&& self.is_bounded(step)
                &&& self.first_number() <= pending
                &&& self.is_complete_before(step, pending)
            },
            InitializationStage::RemoveLaterFiles => {
                let first = known.first_to_remove->0.file_number@ as int;
                &&& self.is_bounded(step)
                &&& known.active matches Some(active) ==> {
                    &&& image.logs.contains(active.file_id.file_number@ as int)
                    &&& first == active.file_id.file_number@ + 1
                    &&& self.is_complete_before(step, active.file_id.file_number@ as int)
                }
                &&& known.active is None ==> self.is_complete_before(step, first)
            },
            InitializationStage::PrepareActivePair(file_id) => {
                &&& self.has_none_from(step, file_id.file_number@ as int)
                &&& self.has_no_index_from(step, file_id.file_number@ as int)
                &&& self.is_complete_before(step, file_id.file_number@ as int)
            },
            InitializationStage::AdvanceCheckpoint | InitializationStage::Finished => {
                let active = known.active->0.file_id.file_number@ as int;
                &&& image.logs.contains(active)
                &&& self.has_none_from(step, active + 1)
                &&& self.has_no_index_from(step, active + 1)
                &&& self.is_complete_before(step, active)
            },
        }
        &&& self.states[step].stage == InitializationStage::Finished ==> match image.last_end {
            None => image.checkpoint == self.images[0].checkpoint,
            Some(end) => image.checkpoint == Some(StreamCheckpoint { end }),
        }
    }

    proof fn lemma_discovered(self, step: int)
        requires
            self.proceeds(),
            0 <= step < self.events.len(),
            self.matches_storage(step),
            self.events[step] is MaximumFound,
        ensures
            self.matches_storage(step + 1),
    {
        assert(self.is_step(step));
        let before = self.states[step];
        let after = self.states[step + 1];
        assert(before.wf());
        assert(after.wf());
        let maximum = self.events[step]->MaximumFound_0;
        if maximum is None {
            assert(self.has_none_from(step + 1, 0));
            assert(self.first_number() == 0);
        }
    }

    proof fn lemma_recovered(self, step: int)
        requires
            self.proceeds(),
            0 <= step < self.events.len(),
            self.matches_storage(step),
            self.events[step] is PairRecovered,
        ensures
            self.matches_storage(step + 1),
    {
        assert(self.is_step(step));
        let before = self.states[step];
        let after = self.states[step + 1];
        assert(before.wf());
        assert(after.wf());
        let pending = before.known.pending->0.file_id;
        let number = pending.file_number@ as int;
        let pair = self.events[step]->PairRecovered_0;
        assert forall|earlier: int| self.images[step].complete.contains(earlier) implies
            #[trigger] self.images[step + 1].complete.contains(earlier) by {}
        if pair is Complete {
            assert(self.is_complete_before(step + 1, number + 1)) by {
                assert forall|earlier: int| self.first_number() <= earlier < number + 1 implies
                    #[trigger] self.images[step + 1].complete.contains(earlier) by {
                    if earlier < number {
                        assert(self.images[step].complete.contains(earlier));
                    }
                }
            }
            assert(after.known.recovered->0.record_id.sequence_number.0 / 100_000 == number);
        } else {
            assert(self.is_complete_before(step + 1, number)) by {
                assert forall|earlier: int| self.first_number() <= earlier < number implies
                    #[trigger] self.images[step + 1].complete.contains(earlier) by {
                    assert(self.images[step].complete.contains(earlier));
                }
            }
        }
        assert(self.is_bounded(step + 1)) by {
            assert(self.images[step + 1].logs == self.images[step].logs);
            assert(after.known.maximum == before.known.maximum);
            let bound = before.known.maximum->0.file_number@ + 1;
            assert(self.has_none_from(step, bound));
            assert forall|later: int| #[trigger]
                self.images[step + 1].logs.contains(later) implies later < bound by {
                assert(self.images[step].logs.contains(later));
            }
        }
    }

    proof fn lemma_removed(self, step: int)
        requires
            self.proceeds(),
            0 <= step < self.events.len(),
            self.matches_storage(step),
            self.events[step] is PairsRemoved,
        ensures
            self.matches_storage(step + 1),
    {
        assert(self.is_step(step));
        let before = self.states[step];
        let after = self.states[step + 1];
        assert(before.wf());
        assert(after.wf());
        let first = before.known.first_to_remove->0.file_number@ as int;
        let last = before.known.maximum->0.file_number@ as int;
        assert(self.has_none_from(step, last + 1));
        assert(self.has_none_from(step + 1, first)) by {
            assert forall|later: int| #[trigger]
                self.images[step + 1].logs.contains(later) implies later < first by {
                assert(self.images[step].logs.contains(later));
            }
        }
        assert(self.has_no_index_from(step + 1, first)) by {
            assert forall|later: int| #[trigger]
                self.images[step + 1].indexes.contains(later) && later <= last implies later
                < first by {
                assert(self.images[step].indexes.contains(later));
            }
        }
        assert(self.images[step + 1].complete == self.images[step].complete);
        let number = match before.known.active {
            Some(active) => active.file_id.file_number@ as int,
            None => first,
        };
        assert(self.is_complete_before(step + 1, number)) by {
            assert forall|earlier: int| self.first_number() <= earlier < number implies
                #[trigger] self.images[step + 1].complete.contains(earlier) by {
                assert(self.images[step].complete.contains(earlier));
            }
        }
        if let Some(active) = before.known.active {
            assert(self.images[step].logs.contains(number));
            assert(self.images[step + 1].logs.contains(number));
        }
    }

    proof fn lemma_created(self, step: int)
        requires
            self.proceeds(),
            0 <= step < self.events.len(),
            self.matches_storage(step),
            self.events[step] is PairCreated,
        ensures
            self.matches_storage(step + 1),
    {
        assert(self.is_step(step));
        let before = self.states[step];
        let number = before.stage->PrepareActivePair_0.file_number@ as int;
        assert(self.states[step + 1].wf());
        assert forall|later: int| #[trigger] self.images[step + 1].logs.contains(later) implies later
            < number + 1 by {
            assert(later == number || self.images[step].logs.contains(later));
        }
        assert(self.has_no_index_from(step + 1, number + 1)) by {
            if let Some(maximum) = before.known.maximum {
                assert forall|later: int| #[trigger]
                    self.images[step + 1].indexes.contains(later) && later
                        <= maximum.file_number@ implies later < number + 1 by {
                    assert(later == number || self.images[step].indexes.contains(later));
                }
            }
        }
        assert forall|earlier: int| self.first_number() <= earlier < number implies
            #[trigger] self.images[step + 1].complete.contains(earlier) by {
            assert(self.images[step].complete.contains(earlier));
        }
    }

    proof fn lemma_matches_storage(self, step: int)
        requires
            self.proceeds(),
            0 <= step < self.states.len(),
        ensures
            self.matches_storage(step),
        decreases step,
    {
        if step > 0 {
            let last: int = step - 1;
            self.lemma_matches_storage(last);
            assert(self.is_step(last));
            assert(self.states[last].wf());
            assert(self.states[step].wf());
            match self.events[last] {
                InitializationEvent::MaximumFound(_) => self.lemma_discovered(last),
                InitializationEvent::PairRecovered(_) => self.lemma_recovered(last),
                InitializationEvent::PairsRemoved => self.lemma_removed(last),
                InitializationEvent::PairCreated => self.lemma_created(last),
                InitializationEvent::CheckpointPublished => {
                    let number = self.states[step].known.active->0.file_id.file_number@ as int;
                    assert(self.images[step].logs == self.images[last].logs);
                    assert(self.images[step].complete == self.images[last].complete);
                    assert(self.images[step].indexes == self.images[last].indexes);
                    assert(self.has_no_index_from(step, number + 1)) by {
                        if let Some(maximum) = self.states[step].known.maximum {
                            assert forall|later: int| #[trigger]
                                self.images[step].indexes.contains(later) && later
                                    <= maximum.file_number@ implies later < number + 1 by {
                                assert(self.images[last].indexes.contains(later));
                            }
                        }
                    }
                    assert forall|later: int| #[trigger]
                        self.images[step].logs.contains(later) implies later < number + 1 by {
                        assert(self.images[last].logs.contains(later));
                    }
                    assert forall|earlier: int| self.first_number() <= earlier < number implies
                        #[trigger] self.images[step].complete.contains(earlier) by {
                        assert(self.images[last].complete.contains(earlier));
                    }
                },
                _ => {},
            }
        }
    }

    /// A finished initialization leaves one contiguous stream: the active pair exists, no log
    /// exists behind it and no index up to the highest log that was found, and every file from the checkpoint's one, or from file zero, up to it was
    /// recovered as a complete one. The stored checkpoint is the end of the last recovered record;
    /// the checkpoint of a stream without recovered records stays as it was. A stream with records
    /// has its checkpoint published last.
    pub proof fn a_finished_initialization_leaves_a_contiguous_stream(self, step: int)
        requires
            self.proceeds(),
            0 <= step < self.states.len(),
            self.states[step].stage == InitializationStage::Finished,
        ensures
            ({
                let image = self.images[step];
                let known = self.states[step].known;
                &&& known.active matches Some(active)
                &&& active.file_id.stream_id == self.states[0].known.stream_id
                &&& image.logs.contains(active.file_id.file_number@ as int)
                &&& forall|number: int| #[trigger]
                    image.logs.contains(number) ==> number <= active.file_id.file_number@
                &&& known.maximum matches Some(maximum) ==> forall|number: int| #[trigger]
                    image.indexes.contains(number) && number <= maximum.file_number@ ==> number
                        <= active.file_id.file_number@
                &&& forall|number: int|
                    self.first_number() <= number < active.file_id.file_number@
                        ==> #[trigger] image.complete.contains(number)
                &&& match image.last_end {
                    None => image.checkpoint == self.images[0].checkpoint,
                    Some(end) => image.checkpoint == Some(StreamCheckpoint { end }),
                }
                &&& active.end matches Some(end) ==> image.last_end == Some(end)
                &&& image.last_end is Some <==> self.events[step - 1] is CheckpointPublished
            }),
    {
        self.lemma_matches_storage(step);
        assert(self.states[step].wf());
        assert(self.is_step(step - 1));
        assert(self.states[step - 1].wf());
        self.lemma_matches_storage(step - 1);
    }

    /// Nothing is created, published or handed out as long as a log lies behind the place where the
    /// stream goes on: a pair is created behind all others, and a checkpoint is published only when
    /// the active pair is the last one.
    pub proof fn nothing_lies_behind_the_place_to_go_on(self, step: int)
        requires
            self.proceeds(),
            0 <= step < self.states.len(),
        ensures
            self.states[step].stage matches InitializationStage::PrepareActivePair(file_id)
                ==> forall|number: int| #[trigger]
                self.images[step].logs.contains(number) ==> number < file_id.file_number@,
            self.states[step].stage == InitializationStage::AdvanceCheckpoint
                || self.states[step].stage == InitializationStage::Finished ==> {
                &&& self.states[step].known.active matches Some(active)
                &&& forall|number: int| #[trigger]
                    self.images[step].logs.contains(number) ==> number
                        <= active.file_id.file_number@
            },
    {
        self.lemma_matches_storage(step);
        assert(self.states[step].wf());
    }

    /// What is to be removed stays known until a pair is created.
    proof fn lemma_first_stays(self, found: int, step: int)
        requires
            self.proceeds(),
            0 <= found <= step < self.states.len(),
            self.states[found].known.validated,
        ensures
            self.states[step].known.validated,
            self.states[step].known.maximum == self.states[found].known.maximum,
            self.states[step].stage is RemoveLaterFiles ==> self.states[step].known.first_to_remove
                == self.states[found].known.first_to_remove,
        decreases step,
    {
        if found < step {
            self.lemma_first_stays(found, step - 1);
            assert(self.is_step(step - 1));
            assert(self.states[step - 1].wf());
            assert(self.states[step].wf());
        }
    }

    /// The pairs behind the recovered prefix are removed before anything else is done: once a first
    /// file to remove is known, a pair is created, a checkpoint is published or initialization
    /// finishes only after a successful removal from that file through the highest one.
    pub proof fn later_pairs_are_removed_first(self, found: int, later: int) -> (removal: int)
        requires
            self.proceeds(),
            0 <= found <= later < self.states.len(),
            self.states[found].known.first_to_remove is Some,
            self.states[later].stage is PrepareActivePair || self.states[later].stage
                == InitializationStage::AdvanceCheckpoint || self.states[later].stage
                == InitializationStage::Finished,
        ensures
            0 <= removal < later,
            self.events[removal] is PairsRemoved,
            self.states[found].known.maximum is Some,
            self.states[removal].request() == (InitializationRequest::RemovePairs {
                first: self.states[found].known.first_to_remove->0,
                last: self.states[found].known.maximum->0,
            }),
        decreases later,
    {
        assert(self.states[found].wf());
        assert(self.states[later].wf());
        assert(later > 0);
        assert(self.is_step(later - 1));
        assert(self.states[later - 1].wf());
        if later == found {
            if self.events[later - 1] is PairsRemoved {
                later - 1
            } else {
                self.later_pairs_are_removed_first(found - 1, found - 1)
            }
        } else {
            self.lemma_first_stays(found, later - 1);
            if self.events[later - 1] is PairsRemoved {
                later - 1
            } else {
                self.later_pairs_are_removed_first(found, later - 1)
            }
        }
    }

    /// Number of outcomes that initialization still needs at most behind the discovery of the log
    /// files.
    pub open spec fn remaining(state: InitializerState) -> int {
        match state.stage {
            InitializationStage::ValidateFiles => {
                state.known.maximum->0.file_number@ - state.known.pending->0.file_id.file_number@
                    + 4
            },
            InitializationStage::RemoveLaterFiles => 3,
            InitializationStage::PrepareActivePair(_) => 2,
            InitializationStage::AdvanceCheckpoint => 1,
            _ => 0,
        }
    }

    /// Every outcome brings initialization further: recovery goes from file to file up to the
    /// highest one, and behind it each of the other requests is made at most once.
    pub proof fn every_outcome_brings_initialization_further(self, step: int)
        requires
            self.proceeds(),
            0 <= step < self.events.len(),
        ensures
            self.states[step].stage == InitializationStage::LoadCheckpoint ==> self.states[step
                + 1].stage == InitializationStage::DiscoverLogFiles,
            self.states[step].stage == InitializationStage::DiscoverLogFiles ==> self.states[step
                + 1].stage != InitializationStage::LoadCheckpoint && self.states[step + 1].stage
                != InitializationStage::DiscoverLogFiles,
            self.states[step].stage != InitializationStage::LoadCheckpoint
                && self.states[step].stage != InitializationStage::DiscoverLogFiles ==> {
                &&& self.states[step + 1].stage != InitializationStage::LoadCheckpoint
                &&& self.states[step + 1].stage != InitializationStage::DiscoverLogFiles
                &&& 0 <= InitializationRun::remaining(self.states[step + 1])
                    < InitializationRun::remaining(self.states[step])
            },
    {
        assert(self.is_step(step));
        assert(self.states[step].wf());
        assert(self.states[step + 1].wf());
    }

    /// Recovery trusts the checkpoint exactly in the file that holds its record, which is the first
    /// one to be recovered; every later file is recovered from its beginning.
    pub proof fn the_checkpoint_is_trusted_in_its_own_file(self, step: int)
        requires
            self.proceeds(),
            0 <= step < self.states.len(),
            self.states[step].request() is ValidatePair,
        ensures
            ({
                let pending = self.states[step].request()->ValidatePair_0;
                &&& pending.file_id.stream_id == self.states[0].known.stream_id
                &&& pending.file_id.file_number@ >= self.first_number()
                &&& pending.last_trusted == match self.images[0].checkpoint {
                    Some(checkpoint) if pending.file_id.file_number@ == self.first_number() => Some(
                        checkpoint.end,
                    ),
                    _ => None,
                }
            }),
    {
        self.lemma_matches_storage(step);
        assert(self.states[step].wf());
    }
}

impl InitializerState {
    /// Initialization asks the storage for something until it has finished.
    pub proof fn initialization_asks_until_it_has_finished(self)
        ensures
            self.request() == InitializationRequest::Finished <==> self.stage
                == InitializationStage::Finished,
            self.stage == InitializationStage::ValidateFiles ==> self.request()
                == InitializationRequest::ValidatePair(self.known.pending->0),
            self.stage matches InitializationStage::PrepareActivePair(file_id) ==> self.request()
                == InitializationRequest::CreatePair(file_id),
    {
    }
}

impl InitializationView {
    /// A checkpoint is accepted exactly when it belongs to the stream. A refused one changes
    /// nothing.
    pub proof fn only_a_foreign_checkpoint_is_refused(
        self,
        checkpoint: Option<StreamCheckpoint>,
        after: InitializationView,
        outcome: Result<(), StreamInitializationError>,
    )
        requires
            self.loaded(Ok(checkpoint), after, outcome),
        ensures
            outcome is Err <==> {
                &&& checkpoint matches Some(checkpoint)
                &&& checkpoint.end.record_id.stream_id != self.stream_id
            },
            outcome is Ok ==> after.checkpoint == checkpoint,
            outcome matches Err(error) ==> after == self && error == (
            StreamInitializationError::ForeignCheckpoint {
                actual: checkpoint->0.end.record_id.stream_id,
                expected: self.stream_id,
            }),
    {
    }

    /// Discovery is refused exactly when the checkpoint's file lies behind every log file of the
    /// stream. A refusal changes nothing.
    pub proof fn only_logs_without_the_checkpoint_are_refused(
        self,
        maximum: Option<LogFileId>,
        after: InitializationView,
        outcome: Result<(), StreamInitializationError>,
    )
        requires
            self.discovered(Ok(maximum), after, outcome),
        ensures
            outcome is Err <==> {
                &&& self.checkpoint matches Some(checkpoint)
                &&& maximum matches Some(file_id) ==> file_id.file_number@
                    < checkpoint.end.record_id.sequence_number.0 / 100_000
            },
            outcome is Ok ==> after.maximum == maximum && after.checkpoint == self.checkpoint,
            outcome matches Err(error) ==> {
                &&& after == self
                &&& match maximum {
                    None => {
                        &&& error matches StreamInitializationError::MissingLogs {
                            stream_id,
                            checkpointed,
                        }
                        &&& stream_id == self.stream_id
                        &&& checkpointed@ == self.checkpoint->0.end.record_id.sequence_number.0
                            / 100_000
                    },
                    Some(file_id) => {
                        &&& error matches StreamInitializationError::OutdatedLogs {
                            maximum,
                            stream_id,
                            checkpointed,
                        }
                        &&& maximum == file_id.file_number
                        &&& stream_id == self.stream_id
                        &&& checkpointed@ == self.checkpoint->0.end.record_id.sequence_number.0
                            / 100_000
                    },
                }
            },
    {
    }

    /// Recovery begins wherever the highest log belongs to the stream and does not lie before the
    /// checkpoint's file: with the checkpoint's file, or with file zero.
    pub proof fn recovery_begins_with_the_checkpoint(
        self,
        after: InitializationView,
        outcome: Result<Option<PairValidation>, StreamInitializationError>,
    )
        requires
            self.began_validation(after, outcome),
            self.maximum matches Some(maximum) ==> {
                &&& maximum.stream_id == self.stream_id
                &&& self.checkpoint matches Some(checkpoint)
                    ==> checkpoint.end.record_id.sequence_number.0 / 100_000 <= maximum.file_number@
            },
        ensures
            outcome is Ok,
            self.maximum is None ==> after.validated && after.pending is None,
            self.maximum is Some ==> {
                &&& after.pending matches Some(pending)
                &&& outcome == Ok::<_, StreamInitializationError>(Some(pending))
                &&& pending.file_id.stream_id == self.stream_id
                &&& pending.file_id.file_number@ == match self.checkpoint {
                    None => 0,
                    Some(checkpoint) => checkpoint.end.record_id.sequence_number.0 as int / 100_000,
                }
            },
    {
    }

    /// A highest log of another stream is refused, and named.
    pub proof fn a_log_of_another_stream_is_refused(
        self,
        after: InitializationView,
        outcome: Result<Option<PairValidation>, StreamInitializationError>,
    )
        requires
            self.began_validation(after, outcome),
            self.maximum matches Some(maximum) && maximum.stream_id != self.stream_id,
        ensures
            after == self,
            outcome matches Err(
                StreamInitializationError::Range(
                    LogFileIdRangeError::DifferentStreams { first, last },
                ),
            ) && first.stream_id == self.stream_id && self.maximum == Some(last),
    {
    }

    /// What lies behind the recovered prefix is to be removed. Behind a pair with room for more
    /// records, which becomes the active one, that begins with the following file; a missing log
    /// ends the prefix, and what is left of its own pair is the first to be removed. Behind a
    /// complete pair recovery goes on with the following file, up to the highest one.
    pub proof fn the_prefix_ends_with_the_first_incomplete_pair(
        self,
        pending: PairValidation,
        maximum: LogFileId,
        pair: PairOutcome,
        after: InitializationView,
        outcome: Result<Option<PairValidation>, StreamInitializationError>,
    )
        requires
            self.recovered_pair(pending, maximum, pair, after, outcome),
            self.first_to_remove is None,
            self.active is None,
            outcome is Ok,
        ensures
            match pair {
                PairOutcome::Complete { end } => {
                    &&& after.recovered == Some(end)
                    &&& after.first_to_remove is None
                    &&& after.active is None
                    &&& after.pending is None <==> pending.file_id == maximum
                    &&& after.pending matches Some(next) ==> {
                        &&& next.file_id.stream_id == self.stream_id
                        &&& next.file_id.file_number@ == pending.file_id.file_number@ + 1
                    }
                },
                PairOutcome::Partial { end } => {
                    &&& after.recovered == if end is Some {
                        end
                    } else {
                        self.recovered
                    }
                    &&& after.active == Some(ActiveEnd { file_id: pending.file_id, end })
                    &&& after.first_to_remove is None <==> pending.file_id == maximum
                    &&& after.first_to_remove matches Some(first) ==> {
                        &&& first.stream_id == pending.file_id.stream_id
                        &&& first.file_number@ == pending.file_id.file_number@ + 1
                    }
                    &&& after.pending is None
                },
                PairOutcome::Failed(_) => {
                    &&& after.recovered == self.recovered
                    &&& after.first_to_remove == Some(pending.file_id)
                    &&& after.active is None
                    &&& after.pending is None
                },
            },
            after.validated <==> after.pending is None,
            after.checkpoint == self.checkpoint,
            after.maximum == self.maximum,
            after.stream_id == self.stream_id,
    {
    }

    /// Recovery stops with an error exactly where a pair cannot be recovered and is not merely a
    /// missing log that the checkpoint does not cover. The error is handed on.
    pub proof fn only_a_failed_pair_stops_recovery(
        self,
        pending: PairValidation,
        maximum: LogFileId,
        pair: PairOutcome,
        after: InitializationView,
        outcome: Result<Option<PairValidation>, StreamInitializationError>,
    )
        requires
            self.recovered_pair(pending, maximum, pair, after, outcome),
        ensures
            outcome is Err <==> {
                &&& pair matches PairOutcome::Failed(error)
                &&& !{
                    &&& pending.last_trusted is None
                    &&& error matches IndexedLogValidationError::Storage(
                        StorageError::Io { path, source, .. },
                    )
                    &&& path == StoragePath::Log(pending.file_id)
                    &&& source.kind == IoErrorKind::NotFound
                }
            },
            outcome is Err ==> outcome == Err::<Option<PairValidation>, _>(
                StreamInitializationError::Validation(pair->Failed_0),
            ),
    {
    }
}

} // verus!
