use vstd::prelude::*;

use crate::io_error::IoErrorKind;
use crate::location::{
    LogFileId, LogFileIdRangeError, LogFileIds, RecordEndLocation, RECORDS_PER_FILE,
};
use crate::record::StreamId;
use crate::storage::{StorageError, StoragePath};
use crate::stream_checkpoint::StreamCheckpoint;
use crate::stream_initializer::{InitializedStream, StreamInitializationError};
use crate::validation::{IndexedLogValidationError, ValidatedFilePair};

verus! {

/// A pair to recover: its file, and the checkpointed end where the checkpoint lies in this file.
#[derive(Clone, Copy, Debug, PartialEq, Eq, Structural)]
pub struct PairValidation {
    pub file_id: LogFileId,
    pub last_trusted: Option<RecordEndLocation>,
}

/// The active pair's file and its last end there.
pub struct ActiveEnd {
    pub file_id: LogFileId,
    pub end: Option<RecordEndLocation>,
}

/// What is known of a stream during its initialization.
#[verifier::ext_equal]
pub struct InitializationView {
    pub stream_id: StreamId,
    pub checkpoint: Option<StreamCheckpoint>,
    /// The highest log file that exists.
    pub maximum: Option<LogFileId>,
    /// The last recovered record's end in the whole stream.
    pub recovered: Option<RecordEndLocation>,
    pub active: Option<ActiveEnd>,
    /// The first of the pairs that lie behind the recovered prefix.
    pub first_to_remove: Option<LogFileId>,
    /// The pair that is being recovered.
    pub pending: Option<PairValidation>,
    /// Whether all pairs of the prefix were recovered.
    pub validated: bool,
}

/// The outcome of recovering a pair, without its files.
#[allow(inconsistent_fields)]
pub enum PairOutcome {
    Complete { end: RecordEndLocation },
    Partial { end: Option<RecordEndLocation> },
    Failed(IndexedLogValidationError),
}

impl PairOutcome {
    pub open spec fn of<F>(
        outcome: Result<ValidatedFilePair<F>, IndexedLogValidationError>,
    ) -> PairOutcome {
        match outcome {
            Ok(ValidatedFilePair::Complete { end }) => PairOutcome::Complete { end },
            Ok(ValidatedFilePair::Partial { end, .. }) => PairOutcome::Partial { end },
            Err(error) => PairOutcome::Failed(error),
        }
    }
}

impl InitializationView {
    /// A stream of which nothing is known yet.
    pub open spec fn new(stream_id: StreamId) -> InitializationView {
        InitializationView {
            stream_id,
            checkpoint: None,
            maximum: None,
            recovered: None,
            active: None,
            first_to_remove: None,
            pending: None,
            validated: false,
        }
    }

    /// Whether no pair was recovered yet.
    pub open spec fn is_unvalidated(self) -> bool {
        &&& self.recovered is None
        &&& self.active is None
        &&& self.first_to_remove is None
        &&& self.pending is None
        &&& !self.validated
    }

    /// The number of the first file to recover: the checkpoint's one, or zero.
    pub open spec fn first_number(self) -> int {
        match self.checkpoint {
            None => 0,
            Some(checkpoint) => (checkpoint.end.record_id.sequence_number.0
                / RECORDS_PER_FILE) as int,
        }
    }

    /// The checkpointed end, if it lies in `file_id`.
    pub open spec fn trusted_in(self, file_id: LogFileId) -> Option<RecordEndLocation> {
        match self.checkpoint {
            Some(checkpoint) if file_id.assigns(checkpoint.end.record_id) => Some(checkpoint.end),
            _ => None,
        }
    }

    /// Whether the files before `number` were recovered as complete ones and the recovered end is
    /// the last record before it.
    pub open spec fn is_recovered_before(self, number: int) -> bool {
        match self.recovered {
            None => number == self.first_number(),
            Some(end) => {
                &&& end.record_id.stream_id == self.stream_id
                &&& LogFileId::count_through(end.record_id) == RECORDS_PER_FILE
                &&& end.record_id.sequence_number.0 / RECORDS_PER_FILE + 1 == number
                &&& number > self.first_number()
            },
        }
    }

    /// Whether the checkpoint belongs to the stream.
    pub open spec fn has_own_checkpoint(self) -> bool {
        self.checkpoint matches Some(checkpoint) ==> checkpoint.end.record_id.stream_id
            == self.stream_id
    }

    pub open spec fn wf(self) -> bool {
        &&& self.has_own_checkpoint()
        &&& self.pending matches Some(pending) ==> self.is_pending(pending)
        &&& self.validated ==> self.is_settled()
        &&& !self.validated ==> self.active is None && self.first_to_remove is None
        &&& !self.validated && self.pending is None ==> self.is_unvalidated() || self.is_stopped()
    }

    /// Whether recovery ended with an error behind some complete files.
    pub open spec fn is_stopped(self) -> bool {
        self.recovered is Some
    }

    /// The prefix before the pending file is complete and the file is one of those to recover.
    pub open spec fn is_pending(self, pending: PairValidation) -> bool {
        &&& !self.validated
        &&& pending.file_id.stream_id == self.stream_id
        &&& self.maximum matches Some(maximum) && pending.file_id.precedes_or_is(maximum)
        &&& pending.last_trusted == self.trusted_in(pending.file_id)
        &&& self.is_recovered_before(pending.file_id.file_number@ as int)
    }

    /// The recovered end is the end of the active pair, or of the last complete file before it or
    /// before the gap; the pairs to remove lie behind the active pair, or begin at the gap.
    pub open spec fn is_settled(self) -> bool {
        &&& self.pending is None
        &&& self.checkpoint matches Some(checkpoint) ==> {
            &&& self.recovered matches Some(end)
            &&& checkpoint.end.record_id.sequence_number.0 <= end.record_id.sequence_number.0
        }
        &&& self.first_to_remove matches Some(first) ==> {
            &&& first.stream_id == self.stream_id
            &&& self.maximum matches Some(maximum) && first.precedes_or_is(maximum)
        }
        &&& match self.active {
            Some(active) => {
                &&& active.file_id.stream_id == self.stream_id
                &&& active.file_id.file_number@ >= self.first_number()
                &&& match active.end {
                    None => self.is_recovered_before(active.file_id.file_number@ as int),
                    Some(end) => self.recovered == Some(end) && active.file_id.assigns(
                        end.record_id,
                    ),
                }
                &&& self.first_to_remove matches Some(first) ==> first.follows(active.file_id)
            },
            None => {
                &&& match self.recovered {
                    None => self.checkpoint is None,
                    Some(end) => self.is_recovered_before(
                        end.record_id.sequence_number.0 / RECORDS_PER_FILE + 1,
                    ),
                }
                &&& self.first_to_remove matches Some(first) ==> self.is_recovered_before(
                    first.file_number@ as int,
                )
            },
        }
    }

    /// What the checkpoint's reading does. An error changes nothing.
    pub open spec fn loaded(
        self,
        result: Result<Option<StreamCheckpoint>, StorageError>,
        after: InitializationView,
        outcome: Result<(), StreamInitializationError>,
    ) -> bool {
        match result {
            Err(error) => {
                &&& after == self
                &&& outcome == Err::<(), _>(StreamInitializationError::Storage(error))
            },
            Ok(Some(checkpoint)) if checkpoint.end.record_id.stream_id != self.stream_id => {
                &&& after == self
                &&& outcome == Err::<(), _>(
                    StreamInitializationError::ForeignCheckpoint {
                        actual: checkpoint.end.record_id.stream_id,
                        expected: self.stream_id,
                    },
                )
            },
            Ok(checkpoint) => {
                &&& after == InitializationView { checkpoint, ..self }
                &&& outcome == Ok::<(), StreamInitializationError>(())
            },
        }
    }

    /// What the discovery of the log files does. An error changes nothing.
    pub open spec fn discovered(
        self,
        result: Result<Option<LogFileId>, StorageError>,
        after: InitializationView,
        outcome: Result<(), StreamInitializationError>,
    ) -> bool {
        match (result, self.checkpoint) {
            (Err(error), _) => {
                &&& after == self
                &&& outcome == Err::<(), _>(StreamInitializationError::Storage(error))
            },
            (Ok(None), Some(_)) => {
                &&& after == self
                &&& outcome matches Err(
                    StreamInitializationError::MissingLogs { stream_id, checkpointed },
                )
                &&& stream_id == self.stream_id
                &&& checkpointed@ == self.first_number()
            },
            (Ok(Some(maximum)), Some(_)) if maximum.file_number@ < self.first_number() => {
                &&& after == self
                &&& outcome matches Err(
                    StreamInitializationError::OutdatedLogs {
                        maximum: reported,
                        stream_id,
                        checkpointed,
                    },
                )
                &&& reported == maximum.file_number
                &&& stream_id == self.stream_id
                &&& checkpointed@ == self.first_number()
            },
            (Ok(maximum), _) => {
                &&& after == InitializationView { maximum, ..self }
                &&& outcome == Ok::<(), StreamInitializationError>(())
            },
        }
    }

    pub open spec fn with_pending(self, pending: Option<PairValidation>) -> InitializationView {
        InitializationView { pending, validated: pending is None, ..self }
    }

    /// Whether recovery goes on with file `number`.
    pub open spec fn goes_on_with(self, number: int, after: InitializationView) -> bool {
        &&& after.pending matches Some(pending)
        &&& after == self.with_pending(Some(pending))
        &&& pending.file_id.stream_id == self.stream_id
        &&& pending.file_id.file_number@ == number
        &&& pending.last_trusted == self.trusted_in(pending.file_id)
    }

    /// What beginning to recover the pairs does: recovery begins with the checkpoint's file, or
    /// with file zero.
    pub open spec fn began_validation(
        self,
        after: InitializationView,
        outcome: Result<Option<PairValidation>, StreamInitializationError>,
    ) -> bool {
        match self.maximum {
            None => {
                &&& after == self.with_pending(None)
                &&& outcome == Ok::<_, StreamInitializationError>(None::<PairValidation>)
            },
            Some(maximum) => if maximum.stream_id != self.stream_id {
                &&& after == self
                &&& outcome matches Err(
                    StreamInitializationError::Range(
                        LogFileIdRangeError::DifferentStreams { first, last },
                    ),
                )
                &&& first.stream_id == self.stream_id
                &&& first.file_number@ == self.first_number()
                &&& last == maximum
            } else if self.first_number() > maximum.file_number@ {
                &&& after == self
                &&& outcome matches Err(
                    StreamInitializationError::Range(
                        LogFileIdRangeError::ReversedFiles { first, last },
                    ),
                )
                &&& first.stream_id == self.stream_id
                &&& first.file_number@ == self.first_number()
                &&& last == maximum
            } else {
                &&& self.goes_on_with(self.first_number(), after)
                &&& outcome == Ok::<_, StreamInitializationError>(after.pending)
            },
        }
    }

    /// Whether `error` says that the log of `file_id` does not exist.
    pub open spec fn is_missing_log(error: IndexedLogValidationError, file_id: LogFileId) -> bool {
        &&& error matches IndexedLogValidationError::Storage(StorageError::Io { path, source, .. })
        &&& source.kind == IoErrorKind::NotFound
        &&& path == StoragePath::Log(file_id)
    }

    /// What the outcome of recovering the pending pair does.
    ///
    /// A complete pair extends the recovered prefix and recovery goes on with the following file,
    /// up to the highest one. A pair with room for more records becomes the active one and ends the
    /// prefix; so does a missing log that the checkpoint does not cover. Whatever lies behind the
    /// end of the prefix is to be removed. Any other failure is handed on.
    pub open spec fn recovered_pair(
        self,
        pending: PairValidation,
        maximum: LogFileId,
        pair: PairOutcome,
        after: InitializationView,
        outcome: Result<Option<PairValidation>, StreamInitializationError>,
    ) -> bool {
        match pair {
            PairOutcome::Complete { end } => {
                let extended = InitializationView { recovered: Some(end), ..self };
                &&& if pending.file_id == maximum {
                    after == extended.with_pending(None)
                } else {
                    extended.goes_on_with(pending.file_id.file_number@ + 1, after)
                }
                &&& outcome == Ok::<_, StreamInitializationError>(after.pending)
            },
            PairOutcome::Partial { end } => {
                &&& after == InitializationView {
                    recovered: if end is Some {
                        end
                    } else {
                        self.recovered
                    },
                    active: Some(ActiveEnd { file_id: pending.file_id, end }),
                    first_to_remove: after.first_to_remove,
                    ..self
                }.with_pending(None)
                &&& match after.first_to_remove {
                    None => pending.file_id == maximum,
                    Some(first) => pending.file_id != maximum && first.follows(pending.file_id),
                }
                &&& outcome == Ok::<_, StreamInitializationError>(None::<PairValidation>)
            },
            PairOutcome::Failed(error) => if pending.last_trusted is None
                && InitializationView::is_missing_log(error, pending.file_id) {
                &&& after == InitializationView {
                    first_to_remove: Some(pending.file_id),
                    ..self
                }.with_pending(None)
                &&& outcome == Ok::<_, StreamInitializationError>(None::<PairValidation>)
            } else {
                &&& after == InitializationView { pending: None, ..self }
                &&& outcome == Err::<Option<PairValidation>, _>(
                    StreamInitializationError::Validation(error),
                )
            },
        }
    }

    /// Whether `file_id` is the file to create an empty pair for: the stream's first file, or the
    /// one behind the recovered prefix.
    pub open spec fn is_file_to_create(self, file_id: LogFileId) -> bool {
        &&& file_id.stream_id == self.stream_id
        &&& match self.recovered {
            None => file_id.file_number@ == 0,
            Some(end) => file_id.file_number@ == end.record_id.sequence_number.0
                / RECORDS_PER_FILE + 1,
        }
    }
}

/// The working state of one stream's initialization.
///
/// Every step takes what the storage gave and decides what follows from it.
pub struct InitializationState<F> {
    stream_id: StreamId,
    checkpoint: Option<StreamCheckpoint>,
    maximum_log_file: Option<LogFileId>,
    recovered_end: Option<RecordEndLocation>,
    active_pair: Option<InitializedStream<F>>,
    first_file_to_remove: Option<LogFileId>,
    pending: Option<PairValidation>,
    /// The files behind the pending one.
    later_files: Option<LogFileIds>,
    validated: bool,
}

impl<F> View for InitializationState<F> {
    type V = InitializationView;

    closed spec fn view(&self) -> InitializationView {
        InitializationView {
            stream_id: self.stream_id,
            checkpoint: self.checkpoint,
            maximum: self.maximum_log_file,
            recovered: self.recovered_end,
            active: match self.active_pair {
                None => None,
                Some(pair) => Some(
                    ActiveEnd { file_id: pair.spec_file_id(), end: pair.spec_end() },
                ),
            },
            first_to_remove: self.first_file_to_remove,
            pending: self.pending,
            validated: self.validated,
        }
    }
}

impl<F> InitializationState<F> {
    /// The active pair.
    pub closed spec fn spec_active_pair(self) -> Option<InitializedStream<F>> {
        self.active_pair
    }

    /// The view is well-formed and the files behind the pending one are those up to the highest.
    pub closed spec fn wf(self) -> bool {
        &&& self@.wf()
        &&& self.pending matches Some(pending) ==> {
            &&& self.later_files matches Some(later)
            &&& later.wf()
            &&& later@.len() == self.maximum_log_file->0.file_number@
                - pending.file_id.file_number@
            &&& forall|i: int|
                0 <= i < later@.len() ==> #[trigger] later@[i] == (
                    self.stream_id,
                    (pending.file_id.file_number@ + 1 + i) as u64,
                )
        }
    }

    /// What [`wf`](Self::wf) says of the view.
    pub proof fn lemma_wf(self)
        requires
            self.wf(),
        ensures
            self@.wf(),
            self@.active is Some <==> self.spec_active_pair() is Some,
            self.spec_active_pair() matches Some(pair) ==> self@.active == Some(
                ActiveEnd { file_id: pair.spec_file_id(), end: pair.spec_end() },
            ),
    {
    }

    pub fn new(stream_id: StreamId) -> (state: InitializationState<F>)
        ensures
            state@ == InitializationView::new(stream_id),
            state.wf(),
            state.spec_active_pair() is None,
    {
        InitializationState {
            stream_id,
            checkpoint: None,
            maximum_log_file: None,
            recovered_end: None,
            active_pair: None,
            first_file_to_remove: None,
            pending: None,
            later_files: None,
            validated: false,
        }
    }

    pub fn stream_id(&self) -> (stream_id: StreamId)
        ensures
            stream_id == self@.stream_id,
    {
        self.stream_id
    }

    /// The checkpoint that recovery relies on.
    pub fn checkpoint(&self) -> (checkpoint: Option<StreamCheckpoint>)
        ensures
            checkpoint == self@.checkpoint,
    {
        self.checkpoint
    }

    /// The highest log file that exists.
    pub fn maximum_log_file(&self) -> (maximum: Option<LogFileId>)
        ensures
            maximum == self@.maximum,
    {
        self.maximum_log_file
    }

    /// The last recovered record's end in the whole stream.
    pub fn recovered_end(&self) -> (end: Option<RecordEndLocation>)
        ensures
            end == self@.recovered,
    {
        self.recovered_end
    }

    /// The pair to append to, once there is one.
    pub fn active_pair(&self) -> (pair: &Option<InitializedStream<F>>)
        ensures
            *pair == self.spec_active_pair(),
    {
        &self.active_pair
    }

    /// The pair that is being recovered.
    pub fn pending(&self) -> (pending: Option<PairValidation>)
        ensures
            pending == self@.pending,
    {
        self.pending
    }

    /// The first of the pairs that lie behind the recovered prefix.
    pub fn first_file_to_remove(&self) -> (first: Option<LogFileId>)
        ensures
            first == self@.first_to_remove,
    {
        self.first_file_to_remove
    }

    /// Takes the stored checkpoint, which has to belong to this stream.
    pub fn load_checkpoint(&mut self, result: Result<Option<StreamCheckpoint>, StorageError>) -> (
    outcome: Result<(), StreamInitializationError>)
        requires
            old(self).wf(),
            old(self)@.is_unvalidated(),
        ensures
            final(self).wf(),
            old(self)@.loaded(result, final(self)@, outcome),
            final(self).spec_active_pair() == old(self).spec_active_pair(),
    {
        let checkpoint = match result {
            Ok(checkpoint) => checkpoint,
            Err(error) => {
                return Err(StreamInitializationError::Storage(error));
            },
        };
        if let Some(checkpoint) = checkpoint {
            let actual = checkpoint.end().record_id().stream_id();
            if actual != self.stream_id {
                return Err(
                    StreamInitializationError::ForeignCheckpoint {
                        actual,
                        expected: self.stream_id,
                    },
                );
            }
        }
        self.checkpoint = checkpoint;
        Ok(())
    }

    /// Takes the highest log file that exists. There has to be one at or behind the checkpoint's
    /// file.
    pub fn discover_log_files(&mut self, result: Result<Option<LogFileId>, StorageError>) -> (
    outcome: Result<(), StreamInitializationError>)
        requires
            old(self).wf(),
            old(self)@.is_unvalidated(),
        ensures
            final(self).wf(),
            old(self)@.discovered(result, final(self)@, outcome),
            final(self).spec_active_pair() == old(self).spec_active_pair(),
    {
        let maximum_log_file = match result {
            Ok(maximum_log_file) => maximum_log_file,
            Err(error) => {
                return Err(StreamInitializationError::Storage(error));
            },
        };
        if let Some(checkpoint) = self.checkpoint {
            let checkpointed = checkpoint.end().log_file_id().file_number();
            let maximum = match maximum_log_file {
                Some(file_id) => file_id.file_number(),
                None => {
                    return Err(
                        StreamInitializationError::MissingLogs {
                            stream_id: self.stream_id,
                            checkpointed,
                        },
                    );
                },
            };
            if maximum.get() < checkpointed.get() {
                return Err(
                    StreamInitializationError::OutdatedLogs {
                        maximum,
                        stream_id: self.stream_id,
                        checkpointed,
                    },
                );
            }
        }
        self.maximum_log_file = maximum_log_file;
        Ok(())
    }

    fn trusted_in(&self, file_id: LogFileId) -> (last_trusted: Option<RecordEndLocation>)
        ensures
            last_trusted == self@.trusted_in(file_id),
    {
        match self.checkpoint {
            None => None,
            Some(checkpoint) => {
                let end = checkpoint.end();
                let end_file = end.log_file_id();
                proof {
                    if file_id.assigns(end.record_id) {
                        file_id.a_record_has_one_file(end_file, end.record_id);
                    }
                }
                if end_file == file_id {
                    Some(end)
                } else {
                    None
                }
            },
        }
    }

    /// Begins to recover the pairs from the checkpoint's file on, or from file zero on. Gives the
    /// first pair to recover; none without any log.
    pub fn validate_files(&mut self) -> (outcome: Result<
        Option<PairValidation>,
        StreamInitializationError,
    >)
        requires
            old(self).wf(),
            old(self)@.is_unvalidated(),
            old(self)@.maximum is None ==> old(self)@.checkpoint is None,
        ensures
            final(self).wf(),
            old(self)@.began_validation(final(self)@, outcome),
            final(self).spec_active_pair() == old(self).spec_active_pair(),
    {
        let maximum = match self.maximum_log_file {
            None => {
                self.validated = true;
                return Ok(None);
            },
            Some(maximum) => maximum,
        };
        let first = match self.checkpoint {
            None => LogFileId::first(self.stream_id),
            Some(checkpoint) => checkpoint.end().log_file_id(),
        };
        match first.iter_to(maximum) {
            Err(error) => Err(StreamInitializationError::Range(error)),
            Ok(files) => {
                let mut files = files;
                let ghost all = files@;
                let next = files.next();
                assert(all[0].1 == first.file_number@);
                assert forall|i: int| 0 <= i < files@.len() implies #[trigger] files@[i] == (
                    self.stream_id,
                    (first.file_number@ + 1 + i) as u64,
                ) by {
                    assert(files@[i] == all[i + 1]);
                }
                proof {
                    next->0.file_number.equal_by_number(first.file_number);
                }
                Ok(self.go_on(next, files))
            },
        }
    }

    /// Goes on with the next file of an enumeration, or ends recovery with its last one.
    fn go_on(&mut self, next: Option<LogFileId>, later_files: LogFileIds) -> (pending: Option<
        PairValidation,
    >)
        requires
            later_files.wf(),
            !old(self)@.validated,
            old(self)@.maximum is Some,
            old(self)@.active is None,
            old(self)@.first_to_remove is None,
            match next {
                Some(file_id) => {
                    &&& old(self)@.has_own_checkpoint()
                    &&& file_id.stream_id == old(self)@.stream_id
                    &&& file_id.precedes_or_is(old(self)@.maximum->0)
                    &&& old(self)@.is_recovered_before(file_id.file_number@ as int)
                    &&& later_files@.len() == old(self)@.maximum->0.file_number@
                        - file_id.file_number@
                    &&& forall|i: int|
                        0 <= i < later_files@.len() ==> #[trigger] later_files@[i] == (
                            old(self)@.stream_id,
                            (file_id.file_number@ + 1 + i) as u64,
                        )
                },
                None => old(self)@.with_pending(None).wf(),
            },
        ensures
            final(self).wf(),
            pending == final(self)@.pending,
            final(self).spec_active_pair() == old(self).spec_active_pair(),
            match next {
                None => final(self)@ == old(self)@.with_pending(None),
                Some(file_id) => {
                    &&& old(self)@.goes_on_with(file_id.file_number@ as int, final(self)@)
                    &&& final(self)@.pending->0.file_id == file_id
                },
            },
    {
        self.pending = match next {
            None => None,
            Some(file_id) => Some(
                PairValidation { file_id, last_trusted: self.trusted_in(file_id) },
            ),
        };
        self.validated = self.pending.is_none();
        self.later_files = Some(later_files);
        self.pending
    }

    /// Takes the outcome of recovering the pending pair and gives the next pair to recover; none
    /// when the prefix has ended.
    pub fn pair_validated(
        &mut self,
        outcome: Result<ValidatedFilePair<F>, IndexedLogValidationError>,
    ) -> (next: Result<Option<PairValidation>, StreamInitializationError>)
        requires
            old(self).wf(),
            old(self)@.pending is Some,
            outcome matches Ok(pair) ==> pair.is_recovery_of(
                old(self)@.pending->0.file_id,
                old(self)@.pending->0.last_trusted,
            ),
        ensures
            final(self).wf(),
            old(self)@.recovered_pair(
                old(self)@.pending->0,
                old(self)@.maximum->0,
                PairOutcome::of(outcome),
                final(self)@,
                next,
            ),
            !(outcome matches Ok(ValidatedFilePair::Partial { .. }))
                ==> final(self).spec_active_pair() == old(self).spec_active_pair(),
            outcome matches Ok(ValidatedFilePair::Partial { end, log, index }) ==> {
                &&& final(self).spec_active_pair() matches Some(pair)
                &&& pair.spec_log() == log
                &&& pair.spec_index() == index
            },
    {
        let pending = self.pending.unwrap();
        let file_id = pending.file_id;
        let ghost maximum = self.maximum_log_file->0;
        match outcome {
            Ok(ValidatedFilePair::Complete { end }) => {
                let mut later_files = self.later_files.unwrap();
                let ghost all = later_files@;
                let next = later_files.next();
                self.recovered_end = Some(end);
                proof {
                    file_id.file_number.equal_by_number(maximum.file_number);
                    if next is Some {
                        assert(all[0].1 == file_id.file_number@ + 1);
                        assert forall|i: int|
                            0 <= i < later_files@.len() implies #[trigger] later_files@[i] == (
                            self.stream_id,
                            (next->0.file_number@ + 1 + i) as u64,
                        ) by {
                            assert(later_files@[i] == all[i + 1]);
                        }
                    }
                }
                Ok(self.go_on(next, later_files))
            },
            Ok(ValidatedFilePair::Partial { end, log, index }) => {
                if end.is_some() {
                    self.recovered_end = end;
                }
                self.active_pair = Some(InitializedStream::new(file_id, log, index, end));
                let mut later_files = self.later_files.unwrap();
                let ghost all = later_files@;
                self.first_file_to_remove = later_files.next();
                proof {
                    file_id.file_number.equal_by_number(maximum.file_number);
                    if all.len() > 0 {
                        assert(all[0].1 == file_id.file_number@ + 1);
                    }
                }
                self.pending = None;
                self.validated = true;
                Ok(None)
            },
            Err(error) => {
                self.pending = None;
                if pending.last_trusted.is_none() && InitializationState::<F>::is_missing_log(
                    &error,
                    file_id,
                ) {
                    self.first_file_to_remove = Some(file_id);
                    self.validated = true;
                    Ok(None)
                } else {
                    Err(StreamInitializationError::Validation(error))
                }
            },
        }
    }

    fn is_missing_log(error: &IndexedLogValidationError, file_id: LogFileId) -> (missing: bool)
        ensures
            missing == InitializationView::is_missing_log(*error, file_id),
    {
        match error {
            IndexedLogValidationError::Storage(StorageError::Io { path, source, .. }) => {
                source.kind() == IoErrorKind::NotFound && *path == StoragePath::Log(file_id)
            },
            _ => false,
        }
    }

    /// The first and the last file of the pairs to remove, both of them counted; none where nothing
    /// lies behind the recovered prefix. The pairs need not exist.
    pub fn remove_later_files(&self) -> (files: Option<(LogFileId, LogFileId)>)
        requires
            self.wf(),
            self@.validated,
        ensures
            match files {
                None => self@.first_to_remove is None,
                Some((first, last)) => {
                    &&& self@.first_to_remove == Some(first)
                    &&& self@.maximum == Some(last)
                    &&& first.precedes_or_is(last)
                },
            },
    {
        match self.first_file_to_remove {
            None => None,
            Some(first) => {
                let maximum = self.maximum_log_file.unwrap();
                Some((first, maximum))
            },
        }
    }

    /// The file to create an empty pair for; none where a pair with room for more records was
    /// recovered.
    pub fn prepare_active_pair(&self) -> (file: Option<LogFileId>)
        requires
            self.wf(),
            self@.validated,
        ensures
            match file {
                None => self@.active is Some,
                Some(file_id) => self@.active is None && self@.is_file_to_create(file_id),
            },
    {
        if self.active_pair.is_some() {
            return None;
        }
        match self.recovered_end {
            None => Some(LogFileId::first(self.stream_id)),
            Some(end) => {
                let file_id = end.log_file_id();
                proof {
                    file_id.only_the_terminal_file_is_short();
                    file_id.a_file_is_a_sequence_range(end.record_id);
                    LogFileId::count_and_place_are_inverse(file_id, end.record_id);
                }
                Some(file_id.next())
            },
        }
    }

    /// Takes the created empty pair as the active one. Pairs to remove are forgotten: the created
    /// pair may take the place of the first of them.
    pub fn pair_created(&mut self, file_id: LogFileId, log: F, index: F)
        requires
            old(self).wf(),
            old(self)@.validated,
            old(self)@.active is None,
            old(self)@.is_file_to_create(file_id),
        ensures
            final(self).wf(),
            final(self)@ == (InitializationView {
                active: Some(ActiveEnd { file_id, end: None }),
                first_to_remove: None,
                ..old(self)@
            }),
            final(self).spec_active_pair() matches Some(pair) && pair.spec_log() == log
                && pair.spec_index() == index,
    {
        self.first_file_to_remove = None;
        self.active_pair = Some(InitializedStream::new(file_id, log, index, None));
    }

    /// The checkpoint to publish; none for a stream without records.
    pub fn advance_checkpoint(&self) -> (checkpoint: Option<StreamCheckpoint>)
        ensures
            match self@.recovered {
                None => checkpoint is None,
                Some(end) => checkpoint == Some(StreamCheckpoint { end }),
            },
    {
        match self.recovered_end {
            None => None,
            Some(end) => Some(StreamCheckpoint::new(end)),
        }
    }

    /// The active pair.
    pub fn finish(self) -> (stream: InitializedStream<F>)
        requires
            self.wf(),
            self@.active is Some,
        ensures
            self.spec_active_pair() == Some(stream),
            self@.active == Some(
                ActiveEnd { file_id: stream.spec_file_id(), end: stream.spec_end() },
            ),
    {
        self.active_pair.unwrap()
    }
}

} // verus!
