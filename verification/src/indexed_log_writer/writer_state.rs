use vstd::prelude::*;

use crate::index_entry::INDEX_ENTRY_LEN;
use crate::index_writer::{IndexWriteError, IndexWriteResult};
use crate::indexed_log_writer::{AppendOutcome, IndexedLogWriteError};
use crate::io_error::IoError;
use crate::location::{LogFileId, LogFilePosition, RecordEndLocation, RECORDS_PER_FILE};
use crate::output::{OutputPhase, OutputRequest, OutputResult, OutputState};
use crate::record::{self, RecordId, RecordOutputError, RecordOutputResult};
use crate::validation::validated_file_pair;

verus! {

/// What the owner of the pair's destinations does next.
#[derive(Clone, Copy, Debug, PartialEq, Eq, Structural)]
pub enum PairOutput {
    /// Offer the log's unsent bytes and report how many were accepted.
    WriteLog,
    /// Complete the log's own buffering.
    FlushLog,
    /// Offer the index's unsent bytes and report how many were accepted.
    WriteIndex,
    /// Complete the index's own buffering.
    FlushIndex,
    /// Make the log's data durable.
    SyncLog,
    /// Make the index's data durable.
    SyncIndex,
}

/// What a writer is doing.
#[derive(Clone, Copy, Debug, PartialEq, Eq, Structural)]
pub enum WriterPhase {
    /// Accepting records and output operations.
    Open,
    /// Sending the log's batch; `synchronize` tells whether synchronization follows the flush.
    SendingLog { synchronize: bool },
    FlushingLog { synchronize: bool },
    SendingIndex { synchronize: bool },
    FlushingIndex { synchronize: bool },
    SyncingLog,
    SyncingIndex,
    /// Output failed.
    Unusable,
    /// Every record is durable and appending has ended.
    Finalized,
}

/// The next request, or none when the operation has completed.
pub type PairOutputResult = Result<Option<PairOutput>, IndexedLogWriteError>;

/// A writer's progress and its two batches.
#[verifier::ext_equal]
pub struct WriterState {
    pub file_id: LogFileId,
    pub expected: RecordId,
    /// Records of the file, accepted ones counted.
    pub count: int,
    pub buffered: Option<RecordEndLocation>,
    pub flushed: Option<RecordEndLocation>,
    pub synced: Option<RecordEndLocation>,
    pub log: OutputState,
    pub index: OutputState,
    pub phase: WriterPhase,
}

impl WriterState {
    /// Whether `later` may be reached from `earlier` by appending records.
    pub open spec fn extends(
        later: Option<RecordEndLocation>,
        earlier: Option<RecordEndLocation>,
    ) -> bool {
        &&& RecordEndLocation::count(earlier) <= RecordEndLocation::count(later)
        &&& record::is_extent_of(
            RecordEndLocation::offset(later) - RecordEndLocation::offset(earlier),
            RecordEndLocation::count(later) - RecordEndLocation::count(earlier),
        )
    }

    /// Bytes of the records that were not flushed yet.
    pub open spec fn unflushed_length(self) -> int {
        RecordEndLocation::offset(self.buffered) - RecordEndLocation::offset(self.flushed)
    }

    /// Number of records that were not flushed yet.
    pub open spec fn unflushed_count(self) -> int {
        RecordEndLocation::count(self.buffered) - RecordEndLocation::count(self.flushed)
    }

    /// The three ends are boundaries of the file in the order synced, flushed, buffered; the next
    /// record follows the buffered end; and the batches hold exactly what was not flushed.
    pub open spec fn wf(self) -> bool {
        &&& self.count == RecordEndLocation::count(self.buffered)
        &&& self.file_id.first_sequence() + self.count <= u64::MAX
        &&& self.expected == self.file_id.record_at(self.count)
        &&& validated_file_pair::is_file_end(self.file_id, self.buffered)
        &&& validated_file_pair::is_file_end(self.file_id, self.flushed)
        &&& validated_file_pair::is_file_end(self.file_id, self.synced)
        &&& WriterState::extends(self.buffered, self.flushed)
        &&& WriterState::extends(self.flushed, self.synced)
        &&& self.log.wf()
        &&& self.index.wf()
        &&& self.batches_match_phase()
    }

    pub open spec fn batches_match_phase(self) -> bool {
        let log_is_pending = self.log.bytes.len() == self.unflushed_length();
        let index_is_pending = self.index.bytes.len() == INDEX_ENTRY_LEN * self.unflushed_count();
        match self.phase {
            WriterPhase::Open | WriterPhase::Finalized => {
                &&& self.log.phase == OutputPhase::Idle && log_is_pending
                &&& self.index.phase == OutputPhase::Idle && index_is_pending
            },
            WriterPhase::SendingLog { .. } => {
                &&& self.log.phase is Sending && log_is_pending
                &&& self.index.phase == OutputPhase::Idle && index_is_pending
                &&& self.unflushed_count() > 0
            },
            WriterPhase::FlushingLog { .. } => {
                &&& self.log.phase == OutputPhase::Flushing && self.log.bytes.len() == 0
                &&& self.index.phase == OutputPhase::Idle && index_is_pending
                &&& self.unflushed_count() > 0
            },
            WriterPhase::SendingIndex { .. } => {
                &&& self.log == OutputState::empty()
                &&& self.index.phase is Sending && index_is_pending
                &&& self.unflushed_count() > 0
            },
            WriterPhase::FlushingIndex { .. } => {
                &&& self.log == OutputState::empty()
                &&& self.index.phase == OutputPhase::Flushing && self.index.bytes.len() == 0
                &&& self.unflushed_count() > 0
            },
            WriterPhase::SyncingLog => {
                &&& self.log.phase == OutputPhase::Synchronizing && self.log.bytes.len() == 0
                &&& self.index == OutputState::empty()
                &&& self.buffered == self.flushed
            },
            WriterPhase::SyncingIndex => {
                &&& self.log == OutputState::empty()
                &&& self.index.phase == OutputPhase::Synchronizing && self.index.bytes.len() == 0
                &&& self.buffered == self.flushed
            },
            WriterPhase::Unusable => true,
        }
    }

    /// The buffered end differs from the flushed end only by unflushed records, which have bytes.
    pub proof fn lemma_unflushed(self)
        requires
            self.wf(),
            self.buffered != self.flushed,
        ensures
            self.unflushed_count() > 0,
            self.unflushed_length() > 0,
    {
        if self.unflushed_count() == 0 {
            if let Some(buffered) = self.buffered {
                if let Some(flushed) = self.flushed {
                    LogFileId::count_and_place_are_inverse(self.file_id, buffered.record_id);
                    LogFileId::count_and_place_are_inverse(self.file_id, flushed.record_id);
                }
            }
        }
    }

    /// The state of a writer on a pair that holds the records up to `end`, of which those up to
    /// `synced` are known to be durable.
    pub open spec fn initial(
        file_id: LogFileId,
        end: Option<RecordEndLocation>,
        synced: Option<RecordEndLocation>,
    ) -> WriterState {
        WriterState {
            file_id,
            expected: file_id.record_at(RecordEndLocation::count(end)),
            count: RecordEndLocation::count(end),
            buffered: end,
            flushed: end,
            synced,
            log: OutputState::empty(),
            index: OutputState::empty(),
            phase: WriterPhase::Open,
        }
    }

    /// Why every operation is refused, if it is.
    pub open spec fn refusal(self) -> Option<IndexedLogWriteError> {
        match self.phase {
            WriterPhase::Open => None,
            WriterPhase::Finalized => Some(IndexedLogWriteError::Finalized),
            _ => Some(IndexedLogWriteError::Unusable),
        }
    }

    /// Whether an output operation awaits the outcome of a request.
    pub open spec fn awaits_reply(self) -> bool {
        self.phase != WriterPhase::Open && self.phase != WriterPhase::Finalized && self.phase
            != WriterPhase::Unusable
    }

    /// Whether a record with this identity is accepted.
    pub open spec fn accepts(self, id: RecordId) -> bool {
        self.phase == WriterPhase::Open && self.count < RECORDS_PER_FILE && id == self.expected
    }

    /// The state with one more record in both batches.
    pub open spec fn with_record(self, id: RecordId, bytes: Seq<u8>) -> WriterState {
        let position = (RecordEndLocation::offset(self.buffered) + bytes.len()) as u64;
        WriterState {
            expected: self.file_id.record_at(self.count + 1),
            count: self.count + 1,
            buffered: Some(RecordEndLocation { record_id: id, position: LogFilePosition(position) }),
            log: OutputState { bytes: self.log.bytes + bytes, phase: self.log.phase },
            index: OutputState {
                bytes: self.index.bytes + vstd::bytes::spec_u64_to_le_bytes(position),
                phase: self.index.phase,
            },
            ..self
        }
    }

    /// What an append does. A refused record changes nothing.
    pub open spec fn appended(
        self,
        id: RecordId,
        bytes: Seq<u8>,
        after: WriterState,
        result: Result<AppendOutcome, IndexedLogWriteError>,
    ) -> bool {
        if let Some(refusal) = self.refusal() {
            after == self && result == Err::<AppendOutcome, _>(refusal)
        } else if self.count == RECORDS_PER_FILE {
            after == self && result == Err::<AppendOutcome, _>(IndexedLogWriteError::Full)
        } else if id != self.expected {
            &&& after == self
            &&& result == Err::<AppendOutcome, _>(
                IndexedLogWriteError::UnexpectedRecordId { expected: self.expected, actual: id },
            )
        } else {
            &&& after == self.with_record(id, bytes)
            &&& result matches Ok(outcome)
            &&& after.buffered == Some(outcome.spec_end())
            &&& outcome.spec_file_full() == (after.count == RECORDS_PER_FILE)
        }
    }

    /// What finalization does: it needs a full and synchronized pair.
    pub open spec fn finalized(
        self,
        after: WriterState,
        result: Result<RecordEndLocation, IndexedLogWriteError>,
    ) -> bool {
        if let Some(refusal) = self.refusal() {
            after == self && result == Err::<RecordEndLocation, _>(refusal)
        } else if self.count < RECORDS_PER_FILE {
            &&& after == self
            &&& result == Err::<RecordEndLocation, _>(
                IndexedLogWriteError::NotFull { record_count: self.count as u64 },
            )
        } else if self.synced != self.buffered {
            &&& after == self
            &&& result == Err::<RecordEndLocation, _>(IndexedLogWriteError::NotSynchronized)
        } else {
            &&& after == WriterState { phase: WriterPhase::Finalized, ..self }
            &&& result matches Ok(end) && self.buffered == Some(end)
        }
    }

    pub open spec fn sending_log(self, synchronize: bool) -> WriterState {
        WriterState {
            log: self.log.with_phase(OutputPhase::Sending { sent: 0 }),
            phase: WriterPhase::SendingLog { synchronize },
            ..self
        }
    }

    pub open spec fn syncing_log(self) -> WriterState {
        WriterState {
            log: self.log.with_phase(OutputPhase::Synchronizing),
            phase: WriterPhase::SyncingLog,
            ..self
        }
    }

    /// What beginning a flush does: without unflushed records there is nothing to do.
    pub open spec fn began_flush(self, after: WriterState, result: PairOutputResult) -> bool {
        if let Some(refusal) = self.refusal() {
            after == self && result == PairOutputResult::Err(refusal)
        } else if self.buffered == self.flushed {
            after == self && result == PairOutputResult::Ok(None)
        } else {
            &&& after == self.sending_log(false)
            &&& result == PairOutputResult::Ok(Some(PairOutput::WriteLog))
        }
    }

    /// What beginning a synchronization does: it begins with a flush where one is needed.
    pub open spec fn began_sync(self, after: WriterState, result: PairOutputResult) -> bool {
        if let Some(refusal) = self.refusal() {
            after == self && result == PairOutputResult::Err(refusal)
        } else if self.buffered == self.flushed {
            &&& after == self.syncing_log()
            &&& result == PairOutputResult::Ok(Some(PairOutput::SyncLog))
        } else {
            &&& after == self.sending_log(true)
            &&& result == PairOutputResult::Ok(Some(PairOutput::WriteLog))
        }
    }

    /// Whether `reply` reports no more accepted bytes than were offered.
    pub open spec fn offered(self, reply: Result<usize, IoError>) -> bool {
        self.log.offered(reply) && self.index.offered(reply)
    }

    pub open spec fn with_failed_log(self) -> WriterState {
        WriterState {
            log: self.log.with_phase(OutputPhase::Failed),
            phase: WriterPhase::Unusable,
            ..self
        }
    }

    pub open spec fn with_failed_index(self) -> WriterState {
        WriterState {
            index: self.index.with_phase(OutputPhase::Failed),
            phase: WriterPhase::Unusable,
            ..self
        }
    }

    /// What the outcome of the outstanding request does.
    ///
    /// The log's batch is sent and flushed before the index's batch is begun. A flush completes
    /// with the index's flush, a synchronization with the index's synchronization. Any failure
    /// makes the pair unusable and leaves the three ends as they are.
    pub open spec fn resumed(
        self,
        reply: Result<usize, IoError>,
        after: WriterState,
        result: PairOutputResult,
    ) -> bool {
        match self.phase {
            WriterPhase::SendingLog { synchronize } => match result {
                Ok(Some(PairOutput::WriteLog)) => {
                    &&& after == WriterState { log: after.log, ..self }
                    &&& self.log.resumed(
                        reply,
                        after.log,
                        OutputResult::Ok(Some(OutputRequest::Write)),
                    )
                },
                Ok(Some(PairOutput::FlushLog)) => {
                    &&& after == WriterState {
                        log: OutputState::empty().with_phase(OutputPhase::Flushing),
                        phase: WriterPhase::FlushingLog { synchronize },
                        ..self
                    }
                    &&& self.log.resumed(reply, OutputState::empty(), OutputResult::Ok(None))
                },
                Err(IndexedLogWriteError::Log(error)) => {
                    &&& after == self.with_failed_log()
                    &&& self.log.resumed(
                        reply,
                        after.log,
                        RecordOutputError::output(RecordOutputResult::Err(error)),
                    )
                },
                _ => false,
            },
            WriterPhase::FlushingLog { synchronize } => match reply {
                Ok(_) => {
                    &&& after == WriterState {
                        log: self.log.with_phase(OutputPhase::Idle),
                        index: self.index.with_phase(OutputPhase::Sending { sent: 0 }),
                        phase: WriterPhase::SendingIndex { synchronize },
                        ..self
                    }
                    &&& result == PairOutputResult::Ok(Some(PairOutput::WriteIndex))
                },
                Err(error) => self.failed_log(error, after, result),
            },
            WriterPhase::SendingIndex { synchronize } => match result {
                Ok(Some(PairOutput::WriteIndex)) => {
                    &&& after == WriterState { index: after.index, ..self }
                    &&& self.index.resumed(
                        reply,
                        after.index,
                        OutputResult::Ok(Some(OutputRequest::Write)),
                    )
                },
                Ok(Some(PairOutput::FlushIndex)) => {
                    &&& after == WriterState {
                        index: OutputState::empty().with_phase(OutputPhase::Flushing),
                        phase: WriterPhase::FlushingIndex { synchronize },
                        ..self
                    }
                    &&& self.index.resumed(reply, OutputState::empty(), OutputResult::Ok(None))
                },
                Err(IndexedLogWriteError::Index(error)) => {
                    &&& after == self.with_failed_index()
                    &&& self.index.resumed(
                        reply,
                        after.index,
                        IndexWriteError::output(IndexWriteResult::Err(error)),
                    )
                },
                _ => false,
            },
            WriterPhase::FlushingIndex { synchronize } => match reply {
                Ok(_) => {
                    let flushed = WriterState {
                        index: self.index.with_phase(OutputPhase::Idle),
                        flushed: self.buffered,
                        phase: WriterPhase::Open,
                        ..self
                    };
                    if synchronize {
                        &&& after == flushed.syncing_log()
                        &&& result == PairOutputResult::Ok(Some(PairOutput::SyncLog))
                    } else {
                        after == flushed && result == PairOutputResult::Ok(None)
                    }
                },
                Err(error) => self.failed_index(error, after, result),
            },
            WriterPhase::SyncingLog => match reply {
                Ok(_) => {
                    &&& after == WriterState {
                        log: self.log.with_phase(OutputPhase::Idle),
                        index: self.index.with_phase(OutputPhase::Synchronizing),
                        phase: WriterPhase::SyncingIndex,
                        ..self
                    }
                    &&& result == PairOutputResult::Ok(Some(PairOutput::SyncIndex))
                },
                Err(error) => self.failed_log(error, after, result),
            },
            WriterPhase::SyncingIndex => match reply {
                Ok(_) => {
                    &&& after == WriterState {
                        index: self.index.with_phase(OutputPhase::Idle),
                        synced: self.flushed,
                        phase: WriterPhase::Open,
                        ..self
                    }
                    &&& result == PairOutputResult::Ok(None)
                },
                Err(error) => self.failed_index(error, after, result),
            },
            _ => false,
        }
    }

    pub open spec fn failed_log(
        self,
        error: IoError,
        after: WriterState,
        result: PairOutputResult,
    ) -> bool {
        &&& after == self.with_failed_log()
        &&& result == PairOutputResult::Err(
            IndexedLogWriteError::Log(RecordOutputError::Io(error)),
        )
    }

    pub open spec fn failed_index(
        self,
        error: IoError,
        after: WriterState,
        result: PairOutputResult,
    ) -> bool {
        &&& after == self.with_failed_index()
        &&& result == PairOutputResult::Err(
            IndexedLogWriteError::Index(IndexWriteError::Io(error)),
        )
    }
}

} // verus!
