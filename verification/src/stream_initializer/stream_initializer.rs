use vstd::prelude::*;

use crate::location::LogFileId;
use crate::record::StreamId;
use crate::storage::StorageError;
use crate::stream_checkpoint::StreamCheckpoint;
use crate::stream_initializer::initialization_state::{
    ActiveEnd, InitializationView, PairOutcome,
};
use crate::stream_initializer::{
    InitializationState, InitializedStream, PairValidation, StreamInitializationError,
};
use crate::validation::{IndexedLogValidationError, ValidatedFilePair};

verus! {

/// Initializes one stream's active log and index.
pub struct StreamInitializer;

/// How far an initialization has come: each stage but the last has one outstanding request.
#[derive(Clone, Copy, Debug, PartialEq, Eq, Structural)]
pub enum InitializationStage {
    LoadCheckpoint,
    DiscoverLogFiles,
    ValidateFiles,
    RemoveLaterFiles,
    PrepareActivePair(LogFileId),
    AdvanceCheckpoint,
    Finished,
}

/// What the owner of the storage does next.
#[derive(Clone, Copy, Debug, PartialEq, Eq, Structural)]
pub enum InitializationRequest {
    /// Read the stream's checkpoint, if there is one.
    ReadCheckpoint,
    /// Find the highest log file of the stream, if there is one.
    FindMaximumLog,
    /// Recover a pair.
    ValidatePair(PairValidation),
    /// Remove the pairs from the first through the last file, as far as they exist.
    RemovePairs { first: LogFileId, last: LogFileId },
    /// Create an empty pair.
    CreatePair(LogFileId),
    /// Make the directories durable and then publish the checkpoint.
    PublishCheckpoint(StreamCheckpoint),
    /// Nothing: initialization has finished.
    Finished,
}

/// A stream's working state and the stage of its initialization.
#[verifier::ext_equal]
pub struct InitializerState {
    pub known: InitializationView,
    pub stage: InitializationStage,
}

impl InitializerState {
    pub open spec fn wf(self) -> bool {
        &&& self.known.wf()
        &&& match self.stage {
            InitializationStage::LoadCheckpoint | InitializationStage::DiscoverLogFiles => {
                self.known.is_unvalidated()
            },
            InitializationStage::ValidateFiles => self.known.pending is Some,
            InitializationStage::RemoveLaterFiles => {
                self.known.validated && self.known.first_to_remove is Some
            },
            InitializationStage::PrepareActivePair(file_id) => {
                &&& self.known.validated
                &&& self.known.active is None
                &&& self.known.is_file_to_create(file_id)
            },
            InitializationStage::AdvanceCheckpoint => {
                &&& self.known.validated
                &&& self.known.active is Some
                &&& self.known.recovered is Some
            },
            InitializationStage::Finished => self.known.validated && self.known.active is Some,
        }
    }

    /// The outstanding request.
    pub open spec fn request(self) -> InitializationRequest {
        match self.stage {
            InitializationStage::LoadCheckpoint => InitializationRequest::ReadCheckpoint,
            InitializationStage::DiscoverLogFiles => InitializationRequest::FindMaximumLog,
            InitializationStage::ValidateFiles => InitializationRequest::ValidatePair(
                self.known.pending->0,
            ),
            InitializationStage::RemoveLaterFiles => InitializationRequest::RemovePairs {
                first: self.known.first_to_remove->0,
                last: self.known.maximum->0,
            },
            InitializationStage::PrepareActivePair(file_id) => InitializationRequest::CreatePair(
                file_id,
            ),
            InitializationStage::AdvanceCheckpoint => InitializationRequest::PublishCheckpoint(
                StreamCheckpoint { end: self.known.recovered->0 },
            ),
            InitializationStage::Finished => InitializationRequest::Finished,
        }
    }

    /// Whether `stage` follows the recovery of the pairs: removal where something is to be removed.
    pub open spec fn follows_validation(known: InitializationView, stage: InitializationStage) -> bool {
        if known.pending is Some {
            stage == InitializationStage::ValidateFiles
        } else if known.first_to_remove is Some {
            stage == InitializationStage::RemoveLaterFiles
        } else {
            InitializerState::follows_cleanup(known, stage)
        }
    }

    /// Whether `stage` follows the removal: creation where no pair has room for more records.
    pub open spec fn follows_cleanup(known: InitializationView, stage: InitializationStage) -> bool {
        if known.active is None {
            stage matches InitializationStage::PrepareActivePair(file_id)
                && known.is_file_to_create(file_id)
        } else {
            InitializerState::follows_preparation(known, stage)
        }
    }

    /// Whether `stage` follows the preparation of the active pair: publication where the stream has
    /// records.
    pub open spec fn follows_preparation(
        known: InitializationView,
        stage: InitializationStage,
    ) -> bool {
        stage == if known.recovered is Some {
            InitializationStage::AdvanceCheckpoint
        } else {
            InitializationStage::Finished
        }
    }
}

/// An initialization of one stream, between two operations on the storage.
///
/// The owner of the storage performs [`request`](Self::request) and hands its outcome back, until
/// no request is left. An error ends the initialization; what was completed before it stays.
pub struct Initialization<F> {
    state: InitializationState<F>,
    stage: InitializationStage,
}

impl<F> View for Initialization<F> {
    type V = InitializerState;

    closed spec fn view(&self) -> InitializerState {
        InitializerState { known: self.state@, stage: self.stage }
    }
}

impl StreamInitializer {
    /// Begins to initialize a stream: the checkpoint is read, the log files are discovered, the
    /// pairs are recovered, what lies behind them is removed, the active pair is prepared and the
    /// checkpoint is advanced, in this order.
    pub fn initialize<F>(stream_id: StreamId) -> (initialization: Initialization<F>)
        ensures
            initialization.wf(),
            initialization@ == (InitializerState {
                known: InitializationView::new(stream_id),
                stage: InitializationStage::LoadCheckpoint,
            }),
    {
        let state = InitializationState::new(stream_id);
        proof {
            state.lemma_wf();
        }
        Initialization { state, stage: InitializationStage::LoadCheckpoint }
    }
}

impl<F> Initialization<F> {
    pub closed spec fn wf(self) -> bool {
        self.state.wf() && self@.wf()
    }

    /// What [`wf`](Self::wf) says of the state.
    pub proof fn lemma_wf(self)
        requires
            self.wf(),
        ensures
            self@.wf(),
    {
    }

    pub closed spec fn spec_active_pair(self) -> Option<InitializedStream<F>> {
        self.state.spec_active_pair()
    }

    /// The working state.
    pub fn state(&self) -> (state: &InitializationState<F>)
        ensures
            state@ == self@.known,
            state.spec_active_pair() == self.spec_active_pair(),
            self.wf() ==> state.wf(),
    {
        &self.state
    }

    pub fn request(&self) -> (request: InitializationRequest)
        requires
            self.wf(),
        ensures
            request == self@.request(),
    {
        match self.stage {
            InitializationStage::LoadCheckpoint => InitializationRequest::ReadCheckpoint,
            InitializationStage::DiscoverLogFiles => InitializationRequest::FindMaximumLog,
            InitializationStage::ValidateFiles => InitializationRequest::ValidatePair(
                self.state.pending().unwrap(),
            ),
            InitializationStage::RemoveLaterFiles => {
                let (first, last) = self.state.remove_later_files().unwrap();
                InitializationRequest::RemovePairs { first, last }
            },
            InitializationStage::PrepareActivePair(file_id) => InitializationRequest::CreatePair(
                file_id,
            ),
            InitializationStage::AdvanceCheckpoint => InitializationRequest::PublishCheckpoint(
                self.state.advance_checkpoint().unwrap(),
            ),
            InitializationStage::Finished => InitializationRequest::Finished,
        }
    }

    /// Takes the stored checkpoint.
    pub fn checkpoint_read(self, result: Result<Option<StreamCheckpoint>, StorageError>) -> (after:
        Result<Initialization<F>, StreamInitializationError>)
        requires
            self.wf(),
            self@.stage == InitializationStage::LoadCheckpoint,
        ensures
            match after {
                Ok(next) => {
                    &&& next.wf()
                    &&& next@.stage == InitializationStage::DiscoverLogFiles
                    &&& self@.known.loaded(result, next@.known, Ok(()))
                },
                Err(error) => self@.known.loaded(result, self@.known, Err(error)),
            },
    {
        let mut state = self.state;
        match state.load_checkpoint(result) {
            Ok(_) => {
                proof {
                    state.lemma_wf();
                }
                Ok(Initialization { state, stage: InitializationStage::DiscoverLogFiles })
            },
            Err(error) => Err(error),
        }
    }

    /// Takes the highest log file and begins to recover the pairs.
    pub fn maximum_found(self, result: Result<Option<LogFileId>, StorageError>) -> (after: Result<
        Initialization<F>,
        StreamInitializationError,
    >)
        requires
            self.wf(),
            self@.stage == InitializationStage::DiscoverLogFiles,
        ensures
            match after {
                Ok(next) => {
                    &&& next.wf()
                    &&& result matches Ok(maximum)
                    &&& self@.known.discovered(result, self@.discovered(maximum), Ok(()))
                    &&& self@.discovered(maximum).began_validation(
                        next@.known,
                        Ok(next@.known.pending),
                    )
                    &&& InitializerState::follows_validation(next@.known, next@.stage)
                },
                Err(error) => {
                    ||| self@.known.discovered(result, self@.known, Err(error))
                    ||| {
                        &&& result matches Ok(maximum)
                        &&& self@.known.discovered(result, self@.discovered(maximum), Ok(()))
                        &&& self@.discovered(maximum).began_validation(
                            self@.discovered(maximum),
                            Err(error),
                        )
                    }
                },
            },
    {
        let mut state = self.state;
        if let Err(error) = state.discover_log_files(result) {
            return Err(error);
        }
        match state.validate_files() {
            Ok(_) => Ok(Initialization::after_validation(state)),
            Err(error) => Err(error),
        }
    }

    /// Takes the outcome of recovering a pair.
    pub fn pair_validated(
        self,
        outcome: Result<ValidatedFilePair<F>, IndexedLogValidationError>,
    ) -> (after: Result<Initialization<F>, StreamInitializationError>)
        requires
            self.wf(),
            self@.stage == InitializationStage::ValidateFiles,
            outcome matches Ok(pair) ==> pair.is_recovery_of(
                self@.known.pending->0.file_id,
                self@.known.pending->0.last_trusted,
            ),
        ensures
            match after {
                Ok(next) => {
                    &&& next.wf()
                    &&& self@.known.recovered_pair(
                        self@.known.pending->0,
                        self@.known.maximum->0,
                        PairOutcome::of(outcome),
                        next@.known,
                        Ok(next@.known.pending),
                    )
                    &&& InitializerState::follows_validation(next@.known, next@.stage)
                    &&& outcome matches Ok(ValidatedFilePair::Partial { log, index, .. }) ==> {
                        &&& next.spec_active_pair() matches Some(pair)
                        &&& pair.spec_log() == log
                        &&& pair.spec_index() == index
                    }
                },
                Err(error) => self@.known.recovered_pair(
                    self@.known.pending->0,
                    self@.known.maximum->0,
                    PairOutcome::of(outcome),
                    InitializationView { pending: None, ..self@.known },
                    Err(error),
                ),
            },
    {
        let mut state = self.state;
        match state.pair_validated(outcome) {
            Ok(_) => Ok(Initialization::after_validation(state)),
            Err(error) => Err(error),
        }
    }

    fn after_validation(state: InitializationState<F>) -> (next: Initialization<F>)
        requires
            state.wf(),
            state@.validated || state@.pending is Some,
        ensures
            next.wf(),
            next@.known == state@,
            next.spec_active_pair() == state.spec_active_pair(),
            InitializerState::follows_validation(next@.known, next@.stage),
    {
        proof {
            state.lemma_wf();
        }
        if state.pending().is_some() {
            return Initialization { state, stage: InitializationStage::ValidateFiles };
        }
        match state.remove_later_files() {
            Some(_) => Initialization { state, stage: InitializationStage::RemoveLaterFiles },
            None => Initialization::after_cleanup(state),
        }
    }

    fn after_cleanup(state: InitializationState<F>) -> (next: Initialization<F>)
        requires
            state.wf(),
            state@.validated,
        ensures
            next.wf(),
            next@.known == state@,
            next.spec_active_pair() == state.spec_active_pair(),
            InitializerState::follows_cleanup(next@.known, next@.stage),
    {
        proof {
            state.lemma_wf();
        }
        match state.prepare_active_pair() {
            Some(file_id) => Initialization {
                state,
                stage: InitializationStage::PrepareActivePair(file_id),
            },
            None => Initialization::after_preparation(state),
        }
    }

    fn after_preparation(state: InitializationState<F>) -> (next: Initialization<F>)
        requires
            state.wf(),
            state@.validated,
            state@.active is Some,
        ensures
            next.wf(),
            next@.known == state@,
            next.spec_active_pair() == state.spec_active_pair(),
            InitializerState::follows_preparation(next@.known, next@.stage),
    {
        proof {
            state.lemma_wf();
        }
        let stage = match state.advance_checkpoint() {
            Some(_) => InitializationStage::AdvanceCheckpoint,
            None => InitializationStage::Finished,
        };
        Initialization { state, stage }
    }

    /// Takes the outcome of the removal.
    pub fn pairs_removed(self, result: Result<(), StorageError>) -> (after: Result<
        Initialization<F>,
        StreamInitializationError,
    >)
        requires
            self.wf(),
            self@.stage == InitializationStage::RemoveLaterFiles,
        ensures
            match (result, after) {
                (Ok(_), Ok(next)) => {
                    &&& next.wf()
                    &&& next@.known == self@.known
                    &&& next.spec_active_pair() == self.spec_active_pair()
                    &&& InitializerState::follows_cleanup(next@.known, next@.stage)
                },
                (Err(error), Err(failure)) => failure == StreamInitializationError::Storage(error),
                _ => false,
            },
    {
        match result {
            Ok(_) => Ok(Initialization::after_cleanup(self.state)),
            Err(error) => Err(StreamInitializationError::Storage(error)),
        }
    }

    /// Takes the created empty log and index.
    pub fn pair_created(self, result: Result<(F, F), StorageError>) -> (after: Result<
        Initialization<F>,
        StreamInitializationError,
    >)
        requires
            self.wf(),
            self@.stage is PrepareActivePair,
        ensures
            match (result, after) {
                (Ok((log, index)), Ok(next)) => {
                    &&& next.wf()
                    &&& next@.known == (InitializationView {
                        active: Some(
                            ActiveEnd {
                                file_id: self@.stage->PrepareActivePair_0,
                                end: None,
                            },
                        ),
                        first_to_remove: None,
                        ..self@.known
                    })
                    &&& next.spec_active_pair() matches Some(pair)
                    &&& pair.spec_log() == log
                    &&& pair.spec_index() == index
                    &&& InitializerState::follows_preparation(next@.known, next@.stage)
                },
                (Err(error), Err(failure)) => failure == StreamInitializationError::Storage(error),
                _ => false,
            },
    {
        let mut state = self.state;
        match (result, self.stage) {
            (Ok((log, index)), InitializationStage::PrepareActivePair(file_id)) => {
                state.pair_created(file_id, log, index);
                Ok(Initialization::after_preparation(state))
            },
            (Err(error), _) => Err(StreamInitializationError::Storage(error)),
            _ => vstd::pervasive::unreached(),
        }
    }

    /// Takes the outcome of the checkpoint's publication.
    pub fn checkpoint_published(self, result: Result<(), StorageError>) -> (after: Result<
        Initialization<F>,
        StreamInitializationError,
    >)
        requires
            self.wf(),
            self@.stage == InitializationStage::AdvanceCheckpoint,
        ensures
            match (result, after) {
                (Ok(_), Ok(next)) => {
                    &&& next.wf()
                    &&& next@.known == self@.known
                    &&& next.spec_active_pair() == self.spec_active_pair()
                    &&& next@.stage == InitializationStage::Finished
                },
                (Err(error), Err(failure)) => failure == StreamInitializationError::Storage(error),
                _ => false,
            },
    {
        match result {
            Ok(_) => Ok(
                Initialization { state: self.state, stage: InitializationStage::Finished },
            ),
            Err(error) => Err(StreamInitializationError::Storage(error)),
        }
    }

    /// The initialized stream.
    pub fn finish(self) -> (stream: InitializedStream<F>)
        requires
            self.wf(),
            self@.stage == InitializationStage::Finished,
        ensures
            self.spec_active_pair() == Some(stream),
            self@.known.active == Some(
                ActiveEnd { file_id: stream.spec_file_id(), end: stream.spec_end() },
            ),
    {
        self.state.finish()
    }
}

impl InitializerState {
    /// The working state after a successful discovery.
    pub open spec fn discovered(self, maximum: Option<LogFileId>) -> InitializationView {
        InitializationView { maximum, ..self.known }
    }
}

} // verus!
