//! What a writer's destinations receive, whatever pieces they accept it in.
use vstd::prelude::*;

use crate::index_entry;
use crate::indexed_log_writer::writer_state::{PairOutputResult, WriterState};
use crate::indexed_log_writer::{AppendOutcome, IndexedLogWriteError, PairOutput, WriterPhase};
use crate::io_error::IoError;
use crate::location::{RecordEndLocation, RECORDS_PER_FILE};
use crate::output::{OutputRequest, OutputResult, OutputState};
use crate::record::{self, RecordId};

verus! {

/// All bytes that the destinations of a pair have accepted.
#[verifier::ext_equal]
pub struct Delivered {
    pub log: Seq<u8>,
    pub index: Seq<u8>,
}

impl WriterState {
    /// The destinations after they took over what `reply` accepts.
    pub open spec fn delivered(self, reply: Result<usize, IoError>, before: Delivered) -> Delivered {
        Delivered {
            log: before.log + self.log.accepted(reply),
            index: before.index + self.index.accepted(reply),
        }
    }

    /// The log with the bytes that are still to be offered.
    pub open spec fn whole_log(self, delivered: Delivered) -> Seq<u8> {
        delivered.log + self.log.unsent()
    }

    /// The index with the bytes that are still to be offered.
    pub open spec fn whole_index(self, delivered: Delivered) -> Seq<u8> {
        delivered.index + self.index.unsent()
    }

    /// Output moves bytes to the destinations without loss or repetition.
    pub proof fn output_moves_bytes_once(
        self,
        reply: Result<usize, IoError>,
        after: WriterState,
        result: PairOutputResult,
        before: Delivered,
    )
        requires
            self.wf(),
            self.offered(reply),
            self.resumed(reply, after, result),
            result is Ok,
        ensures
            after.whole_log(self.delivered(reply, before)) == self.whole_log(before),
            after.whole_index(self.delivered(reply, before)) == self.whole_index(before),
    {
        let delivered = self.delivered(reply, before);
        match self.phase {
            WriterPhase::SendingLog { .. } => {
                let (output, outcome) = match result {
                    Ok(Some(PairOutput::WriteLog)) => (
                        after.log,
                        OutputResult::Ok(Some(OutputRequest::Write)),
                    ),
                    _ => (OutputState::empty(), OutputResult::Ok(None)),
                };
                self.log.a_reply_moves_bytes_once(reply, output, outcome);
                assert(after.log.unsent() =~= output.unsent());
            },
            WriterPhase::SendingIndex { .. } => {
                let (output, outcome) = match result {
                    Ok(Some(PairOutput::WriteIndex)) => (
                        after.index,
                        OutputResult::Ok(Some(OutputRequest::Write)),
                    ),
                    _ => (OutputState::empty(), OutputResult::Ok(None)),
                };
                self.index.a_reply_moves_bytes_once(reply, output, outcome);
                assert(after.index.unsent() =~= output.unsent());
            },
            _ => {
                assert(after.log.unsent() =~= self.log.unsent());
                assert(after.index.unsent() =~= self.index.unsent());
            },
        }
        assert(after.whole_log(delivered) =~= self.whole_log(before));
        assert(after.whole_index(delivered) =~= self.whole_index(before));
    }

    /// An index byte is accepted only when no byte of the log is left to be offered, and the index
    /// is begun only by the completed flush of the log.
    pub proof fn the_log_precedes_the_index(
        self,
        reply: Result<usize, IoError>,
        after: WriterState,
        result: PairOutputResult,
    )
        requires
            self.wf(),
            self.offered(reply),
            self.resumed(reply, after, result),
        ensures
            self.index.accepted(reply).len() > 0 ==> self.log.unsent().len() == 0,
            self.phase !is SendingIndex && after.phase is SendingIndex ==> self.phase is FlushingLog
                && reply is Ok,
            after.phase == WriterPhase::SyncingIndex ==> self.phase == WriterPhase::SyncingLog
                && reply is Ok,
    {
    }

    /// The flushed end moves only when both outputs were flushed, the synced end only when both
    /// were synchronized, and then to the preceding end; neither moves when output fails.
    pub proof fn an_end_moves_only_with_both_outputs(
        self,
        reply: Result<usize, IoError>,
        after: WriterState,
        result: PairOutputResult,
    )
        requires
            self.wf(),
            self.resumed(reply, after, result),
        ensures
            after.buffered == self.buffered,
            after.flushed == self.flushed || after.flushed == self.buffered && self.phase
                is FlushingIndex && reply is Ok,
            after.synced == self.synced || after.synced == self.flushed && self.phase
                == WriterPhase::SyncingIndex && reply is Ok,
            result is Err ==> after.flushed == self.flushed && after.synced == self.synced
                && after.phase == WriterPhase::Unusable,
    {
    }

    /// An unusable or finalized writer refuses every operation and changes nothing.
    pub proof fn the_end_of_output_is_final(
        self,
        id: RecordId,
        bytes: Seq<u8>,
        after: WriterState,
        appended: Result<AppendOutcome, IndexedLogWriteError>,
        finalized: Result<RecordEndLocation, IndexedLogWriteError>,
        begun: PairOutputResult,
    )
        requires
            self.phase == WriterPhase::Unusable || self.phase == WriterPhase::Finalized,
        ensures
            self.appended(id, bytes, after, appended) ==> after == self && appended
                == Err::<AppendOutcome, _>(self.refusal()->0),
            self.finalized(after, finalized) ==> after == self && finalized
                == Err::<RecordEndLocation, _>(self.refusal()->0),
            self.began_flush(after, begun) || self.began_sync(after, begun) ==> after == self
                && begun == PairOutputResult::Err(self.refusal()->0),
            self.phase == WriterPhase::Unusable ==> self.refusal() == Some(
                IndexedLogWriteError::Unusable,
            ),
            self.phase == WriterPhase::Finalized ==> self.refusal() == Some(
                IndexedLogWriteError::Finalized,
            ),
    {
    }

    /// A finalized pair is full and durable.
    pub proof fn only_a_full_durable_pair_is_finalized(
        self,
        after: WriterState,
        end: RecordEndLocation,
    )
        requires
            self.wf(),
            self.finalized(after, Ok(end)),
        ensures
            self.count == RECORDS_PER_FILE,
            self.synced == Some(end),
            self.flushed == Some(end),
            self.buffered == Some(end),
    {
        if self.buffered != self.flushed {
            self.lemma_unflushed();
        }
    }
}

/// One operation on a writer, or the outcome of a request, with its result.
#[allow(inconsistent_fields)]
pub enum WriterEvent {
    Append { id: RecordId, bytes: Seq<u8>, result: Result<AppendOutcome, IndexedLogWriteError> },
    Flush { result: PairOutputResult },
    Sync { result: PairOutputResult },
    Finalize { result: Result<RecordEndLocation, IndexedLogWriteError> },
    Reply { reply: Result<usize, IoError>, result: PairOutputResult },
}

/// The operations on one writer and what its destinations have accepted: `states` and `delivered`
/// have one element more than there are events.
pub struct WriterRun {
    pub states: Seq<WriterState>,
    pub delivered: Seq<Delivered>,
    pub events: Seq<WriterEvent>,
}

impl WriterRun {
    /// Whether the `step`-th event leads to the following state. Operations may be refused, but no
    /// output fails.
    pub open spec fn is_step(self, step: int) -> bool {
        let before = self.states[step];
        let after = self.states[step + 1];
        match self.events[step] {
            WriterEvent::Append { id, bytes, result } => {
                &&& record::is_record_length(bytes.len() as int)
                &&& before.appended(id, bytes, after, result)
                &&& self.delivered[step + 1] == self.delivered[step]
            },
            WriterEvent::Flush { result } => {
                before.began_flush(after, result) && self.delivered[step + 1]
                    == self.delivered[step]
            },
            WriterEvent::Sync { result } => {
                before.began_sync(after, result) && self.delivered[step + 1]
                    == self.delivered[step]
            },
            WriterEvent::Finalize { result } => {
                before.finalized(after, result) && self.delivered[step + 1]
                    == self.delivered[step]
            },
            WriterEvent::Reply { reply, result } => {
                &&& before.offered(reply)
                &&& before.resumed(reply, after, result)
                &&& result is Ok
                &&& self.delivered[step + 1] == before.delivered(reply, self.delivered[step])
            },
        }
    }

    /// Whether the run begins with a writer that has nothing buffered and every event leads from
    /// one well-formed state to the next.
    pub open spec fn proceeds(self) -> bool {
        &&& self.states.len() == self.events.len() + 1
        &&& self.delivered.len() == self.states.len()
        &&& self.states[0] == WriterState::initial(
            self.states[0].file_id,
            self.states[0].buffered,
            self.states[0].synced,
        )
        &&& forall|step: int| 0 <= step < self.states.len() ==> (#[trigger] self.states[step]).wf()
        &&& forall|step: int| 0 <= step < self.events.len() ==> #[trigger] self.is_step(step)
    }

    /// The encodings of the records accepted by the first `steps` events, one after the other.
    pub open spec fn accepted_bytes(self, steps: int) -> Seq<u8>
        decreases steps,
    {
        if steps <= 0 {
            Seq::empty()
        } else {
            self.accepted_bytes(steps - 1) + match self.events[steps - 1] {
                WriterEvent::Append { bytes, result: Ok(_), .. } => bytes,
                _ => Seq::empty(),
            }
        }
    }

    /// The ends of the records accepted by the first `steps` events.
    pub open spec fn accepted_ends(self, steps: int) -> Seq<u64>
        decreases steps,
    {
        if steps <= 0 {
            Seq::empty()
        } else {
            match self.events[steps - 1] {
                WriterEvent::Append { result: Ok(outcome), .. } => self.accepted_ends(
                    steps - 1,
                ).push(outcome.spec_end().position.0),
                _ => self.accepted_ends(steps - 1),
            }
        }
    }

    /// At any time the destinations hold, or are still to be offered, exactly the accepted records'
    /// encodings and ends behind what they held at the beginning.
    pub proof fn destinations_receive_the_accepted_records(self, steps: int)
        requires
            self.proceeds(),
            0 <= steps < self.states.len(),
        ensures
            self.states[steps].whole_log(self.delivered[steps]) == self.delivered[0].log
                + self.accepted_bytes(steps),
            self.states[steps].whole_index(self.delivered[steps]) == self.delivered[0].index
                + index_entry::encode(self.accepted_ends(steps)),
        decreases steps,
    {
        if steps == 0 {
            assert(self.states[0].wf());
            assert(self.states[0].whole_log(self.delivered[0]) =~= self.delivered[0].log
                + Seq::<u8>::empty());
            assert(self.states[0].whole_index(self.delivered[0]) =~= self.delivered[0].index
                + Seq::<u8>::empty());
        } else {
            let last: int = steps - 1;
            self.destinations_receive_the_accepted_records(last);
            assert(self.is_step(last));
            let before = self.states[last];
            let after = self.states[steps];
            let delivered = self.delivered[steps];
            assert(before.wf());
            assert(after.wf());
            match self.events[last] {
                WriterEvent::Append { id, bytes, result } => {
                    if let Ok(outcome) = result {
                        index_entry::lemma_encode_push(
                            self.accepted_ends(last),
                            outcome.spec_end().position.0,
                        );
                        let end = vstd::bytes::spec_u64_to_le_bytes(outcome.spec_end().position.0);
                        assert(after.whole_log(delivered) =~= before.whole_log(delivered) + bytes);
                        assert(after.whole_log(delivered) =~= self.delivered[0].log
                            + self.accepted_bytes(steps));
                        assert(after.whole_index(delivered) =~= before.whole_index(delivered)
                            + end);
                        assert(after.whole_index(delivered) =~= self.delivered[0].index
                            + index_entry::encode(self.accepted_ends(steps)));
                    }
                },
                WriterEvent::Reply { reply, result } => {
                    before.output_moves_bytes_once(reply, after, result, self.delivered[last]);
                },
                _ => {
                    assert(after.log.unsent() =~= before.log.unsent());
                    assert(after.index.unsent() =~= before.index.unsent());
                },
            }
            assert(self.accepted_bytes(last) + Seq::<u8>::empty() =~= self.accepted_bytes(last));
        }
    }

    /// Once everything was flushed the destinations hold exactly the accepted records' encodings,
    /// and one entry per record with its end, behind what they held at the beginning.
    pub proof fn a_completed_flush_has_delivered_the_accepted_records(self, steps: int)
        requires
            self.proceeds(),
            0 <= steps < self.states.len(),
            self.states[steps].phase == WriterPhase::Open,
            self.states[steps].buffered == self.states[steps].flushed,
        ensures
            self.delivered[steps].log == self.delivered[0].log + self.accepted_bytes(steps),
            self.delivered[steps].index == self.delivered[0].index + index_entry::encode(
                self.accepted_ends(steps),
            ),
    {
        self.destinations_receive_the_accepted_records(steps);
        let state = self.states[steps];
        assert(state.wf());
        assert(state.log.unsent() =~= Seq::empty());
        assert(state.index.unsent() =~= Seq::empty());
        assert(state.whole_log(self.delivered[steps]) =~= self.delivered[steps].log);
        assert(state.whole_index(self.delivered[steps]) =~= self.delivered[steps].index);
    }

    proof fn lemma_step_extends(self, step: int)
        requires
            self.proceeds(),
            0 <= step < self.events.len(),
        ensures
            WriterState::extends(self.states[step + 1].buffered, self.states[step].buffered),
            WriterState::extends(self.states[step + 1].flushed, self.states[step].flushed),
            WriterState::extends(self.states[step + 1].synced, self.states[step].synced),
            self.states[step + 1].file_id == self.states[step].file_id,
    {
        let before = self.states[step];
        let after = self.states[step + 1];
        assert(self.is_step(step));
        assert(before.wf());
        assert(after.wf());
        match self.events[step] {
            WriterEvent::Append { id, bytes, result } => {
                if result is Ok {
                    assert(after.count == before.count + 1);
                    assert(RecordEndLocation::offset(after.buffered) == RecordEndLocation::offset(
                        before.buffered,
                    ) + bytes.len());
                }
            },
            WriterEvent::Reply { reply, result } => {
                before.an_end_moves_only_with_both_outputs(reply, after, result);
            },
            _ => {},
        }
    }

    /// The file's progress never goes back: every later end extends every earlier one.
    pub proof fn progress_never_goes_back(self, earlier: int, later: int)
        requires
            self.proceeds(),
            0 <= earlier <= later < self.states.len(),
        ensures
            WriterState::extends(self.states[later].buffered, self.states[earlier].buffered),
            WriterState::extends(self.states[later].flushed, self.states[earlier].flushed),
            WriterState::extends(self.states[later].synced, self.states[earlier].synced),
            self.states[later].file_id == self.states[earlier].file_id,
        decreases later - earlier,
    {
        if earlier < later {
            self.progress_never_goes_back(earlier, later - 1);
            self.lemma_step_extends(later - 1);
        }
    }
}

} // verus!
