//! What output operations ask of a writer's files, and what the files hold once they complete.
use vstd::prelude::*;

use crate::file::{FileImage, FileReply, FileRequest};
use crate::index_entry;
use crate::index_writer::IndexWriteError;
use crate::indexed_log_writer::laws::{WriterEvent, WriterRun};
use crate::indexed_log_writer::writer_state::{PairOutputResult, WriterState};
use crate::indexed_log_writer::{AppendOutcome, IndexedLogWriteError, PairOutput, WriterPhase};
use crate::io_error::{IoError, IoErrorKind};
use crate::location::RecordEndLocation;
use crate::record::{RecordId, RecordOutputError};
use crate::validation::indexed_log_laws::PairImage;

verus! {

impl WriterState {
    /// Upper bound on the successful replies that the operation under way still needs.
    pub open spec fn remaining(self) -> int {
        match self.phase {
            WriterPhase::SendingLog { .. } => {
                self.log.unsent().len() as int + self.index.bytes.len() + 5
            },
            WriterPhase::FlushingLog { .. } => self.index.bytes.len() as int + 5,
            WriterPhase::SendingIndex { .. } => self.index.unsent().len() as int + 4,
            WriterPhase::FlushingIndex { .. } => 3,
            WriterPhase::SyncingLog => 2,
            WriterPhase::SyncingIndex => 1,
            _ => 0,
        }
    }

    /// Whether a batch is being sent.
    pub open spec fn is_sending(self) -> bool {
        self.phase is SendingLog || self.phase is SendingIndex
    }

    /// Successful replies bring every output operation to its completion: each of them is followed
    /// by a request or by the end of the operation, after which the writer is open again.
    pub proof fn successful_output_comes_to_its_end(
        self,
        reply: Result<usize, IoError>,
        after: WriterState,
        result: PairOutputResult,
    )
        requires
            self.wf(),
            self.awaits_reply(),
            self.offered(reply),
            self.resumed(reply, after, result),
            reply is Ok,
            self.is_sending() ==> reply != Ok::<usize, IoError>(0),
        ensures
            result is Ok,
            0 <= after.remaining() < self.remaining(),
            after.phase == WriterPhase::Open <==> result == PairOutputResult::Ok(None),
            after.phase == WriterPhase::Open || after.awaits_reply(),
    {
    }

    /// A writer takes every outcome that a file can give to the bytes that it offers.
    pub proof fn every_outcome_of_a_write_is_taken(
        self,
        image: FileImage,
        accepted: usize,
        after: FileImage,
    )
        requires
            self.wf(),
            self.awaits_reply(),
        ensures
            self.phase is SendingLog && image.serves(
                FileRequest::Write,
                self.log.unsent(),
                FileReply::Accepted(accepted),
                after,
            ) ==> self.offered(Ok(accepted)),
            self.phase is SendingIndex && image.serves(
                FileRequest::Write,
                self.index.unsent(),
                FileReply::Accepted(accepted),
                after,
            ) ==> self.offered(Ok(accepted)),
            !self.is_sending() ==> self.offered(Ok(accepted)),
    {
    }

    /// A failure ends the use of the pair and is handed on as the failure of its file. Only an
    /// interrupted write is no failure: it is offered again.
    pub proof fn failed_output_is_reported_for_its_file(
        self,
        error: IoError,
        after: WriterState,
        result: PairOutputResult,
    )
        requires
            self.wf(),
            self.awaits_reply(),
            self.resumed(Err(error), after, result),
        ensures
            self.is_sending() && error.kind == IoErrorKind::Interrupted ==> {
                &&& after == self
                &&& result is Ok
            },
            !(self.is_sending() && error.kind == IoErrorKind::Interrupted) ==> {
                &&& after.phase == WriterPhase::Unusable
                &&& result == if self.phase is SendingLog || self.phase is FlushingLog || self.phase
                    == WriterPhase::SyncingLog {
                    PairOutputResult::Err(IndexedLogWriteError::Log(RecordOutputError::Io(error)))
                } else {
                    PairOutputResult::Err(IndexedLogWriteError::Index(IndexWriteError::Io(error)))
                }
            },
    {
    }

    /// An open writer begins every output operation: a flush asks for output exactly when records
    /// were not flushed, and a synchronization always does. No end moves and no record is dropped.
    pub proof fn an_open_writer_begins_output(self, after: WriterState, result: PairOutputResult)
        requires
            self.wf(),
            self.phase == WriterPhase::Open,
            self.began_flush(after, result) || self.began_sync(after, result),
        ensures
            result is Ok,
            after.buffered == self.buffered,
            after.flushed == self.flushed,
            after.synced == self.synced,
            after.count == self.count,
            after.log.bytes == self.log.bytes,
            after.index.bytes == self.index.bytes,
            result == PairOutputResult::Ok(None) ==> {
                &&& after == self
                &&& !self.began_sync(after, result)
                &&& self.buffered == self.flushed
            },
            result != PairOutputResult::Ok(None) ==> after.awaits_reply(),
            self.began_flush(after, result) && self.buffered == self.flushed ==> result
                == PairOutputResult::Ok(None),
    {
    }

    /// While an output operation is under way every other operation is refused and changes nothing.
    pub proof fn output_excludes_other_operations(
        self,
        id: RecordId,
        bytes: Seq<u8>,
        after: WriterState,
        appended: Result<AppendOutcome, IndexedLogWriteError>,
        finalized: Result<RecordEndLocation, IndexedLogWriteError>,
        begun: PairOutputResult,
    )
        requires
            self.wf(),
            self.awaits_reply(),
        ensures
            self.appended(id, bytes, after, appended) ==> after == self && appended
                == Err::<AppendOutcome, _>(IndexedLogWriteError::Unusable),
            self.finalized(after, finalized) ==> after == self && finalized
                == Err::<RecordEndLocation, _>(IndexedLogWriteError::Unusable),
            self.began_flush(after, begun) || self.began_sync(after, begun) ==> after == self
                && begun == PairOutputResult::Err(IndexedLogWriteError::Unusable),
    {
    }

    /// An open writer with room accepts exactly the record that continues its file, and puts its
    /// end behind the preceding one by its length. A refused record changes nothing.
    pub proof fn exactly_the_next_record_is_accepted(
        self,
        id: RecordId,
        bytes: Seq<u8>,
        after: WriterState,
        result: Result<AppendOutcome, IndexedLogWriteError>,
    )
        requires
            self.wf(),
            self.phase == WriterPhase::Open,
            16 <= bytes.len() <= 65_535,
            self.appended(id, bytes, after, result),
        ensures
            result is Ok <==> {
                &&& self.count < 100_000
                &&& id.stream_id == self.file_id.stream_id
                &&& id.sequence_number.0 == self.file_id.file_number@ * 100_000 + self.count
            },
            result matches Ok(outcome) ==> {
                &&& outcome.spec_end().record_id == id
                &&& outcome.spec_end().position.0 == RecordEndLocation::offset(self.buffered)
                    + bytes.len()
                &&& outcome.spec_file_full() <==> self.count == 99_999
                &&& after.count == self.count + 1
                &&& after.buffered == Some(outcome.spec_end())
                &&& after.flushed == self.flushed
                &&& after.synced == self.synced
                &&& after.phase == WriterPhase::Open
                &&& after.log.bytes == self.log.bytes + bytes
                &&& after.index.bytes == self.index.bytes + vstd::bytes::spec_u64_to_le_bytes(
                    outcome.spec_end().position.0,
                )
            },
            result is Err ==> after == self,
            self.count == 100_000 ==> result == Err::<AppendOutcome, _>(IndexedLogWriteError::Full),
            self.count < 100_000 && result is Err ==> result == Err::<AppendOutcome, _>(
                IndexedLogWriteError::UnexpectedRecordId { expected: self.expected, actual: id },
            ),
    {
        if let Some(end) = self.buffered {
            assert(RecordEndLocation::offset(self.buffered) <= 65_535 * 100_000);
        }
    }

    /// An open writer is finalized exactly when its file is full and all of it is durable.
    pub proof fn exactly_a_full_durable_pair_is_finalized(
        self,
        after: WriterState,
        result: Result<RecordEndLocation, IndexedLogWriteError>,
    )
        requires
            self.wf(),
            self.phase == WriterPhase::Open,
            self.finalized(after, result),
        ensures
            result is Ok <==> self.count == 100_000 && self.synced == self.buffered,
            result matches Ok(end) ==> self.buffered == Some(end) && after.phase
                == WriterPhase::Finalized,
            after.buffered == self.buffered && after.flushed == self.flushed && after.synced
                == self.synced,
            result is Err ==> after == self,
            self.count < 100_000 ==> result == Err::<RecordEndLocation, _>(
                IndexedLogWriteError::NotFull { record_count: self.count as u64 },
            ),
            self.count == 100_000 && result is Err ==> result == Err::<RecordEndLocation, _>(
                IndexedLogWriteError::NotSynchronized,
            ),
    {
    }
}

impl WriterEvent {
    /// What an output operation's beginning or the outcome of a request came to; none for any other
    /// event.
    pub open spec fn output_result(self) -> Option<PairOutputResult> {
        match self {
            WriterEvent::Flush { result } => Some(result),
            WriterEvent::Sync { result } => Some(result),
            WriterEvent::Reply { result, .. } => Some(result),
            _ => None,
        }
    }
}

impl WriterRun {
    /// The request that awaits its outcome before the `step`-th event.
    pub open spec fn outstanding(self, step: int) -> Option<PairOutput>
        decreases step,
    {
        if step <= 0 {
            None
        } else {
            match self.events[step - 1].output_result() {
                Some(Ok(request)) => request,
                _ => self.outstanding(step - 1),
            }
        }
    }

    /// Whether the `step`-th event is the successful outcome of `request`.
    pub open spec fn answers(self, step: int, request: PairOutput) -> bool {
        &&& self.outstanding(step) == Some(request)
        &&& self.events[step] matches WriterEvent::Reply { reply, .. }
        &&& reply is Ok
    }

    /// Whether the output operation that the `begin`-th event begins has completed after `end`
    /// events, and not before.
    pub open spec fn completes(self, begin: int, end: int) -> bool {
        &&& 0 <= begin < end < self.states.len()
        &&& self.events[end - 1].output_result() == Some(PairOutputResult::Ok(None))
        &&& forall|step: int|
            begin <= step < end - 1 ==> (#[trigger] self.events[step]).output_result() != Some(
                PairOutputResult::Ok(None),
            )
    }

    /// The outstanding request belongs to what the writer is doing.
    proof fn lemma_outstanding(self, step: int)
        requires
            self.proceeds(),
            0 <= step < self.states.len(),
        ensures
            self.states[step].phase != WriterPhase::Unusable,
            self.outstanding(step) == match self.states[step].phase {
                WriterPhase::SendingLog { .. } => Some(PairOutput::WriteLog),
                WriterPhase::FlushingLog { .. } => Some(PairOutput::FlushLog),
                WriterPhase::SendingIndex { .. } => Some(PairOutput::WriteIndex),
                WriterPhase::FlushingIndex { .. } => Some(PairOutput::FlushIndex),
                WriterPhase::SyncingLog => Some(PairOutput::SyncLog),
                WriterPhase::SyncingIndex => Some(PairOutput::SyncIndex),
                _ => None,
            },
        decreases step,
    {
        if step > 0 {
            self.lemma_outstanding(step - 1);
            assert(self.is_step(step - 1));
            assert(self.states[step - 1].wf());
        }
    }

    /// A synchronization that has not completed: what was not flushed is flushed, the log before
    /// the index, and then the log is synchronized before the index.
    proof fn lemma_syncing(self, begin: int, step: int) -> (steps: (int, int, int))
        requires
            self.proceeds(),
            0 <= begin < step < self.states.len(),
            self.events[begin] matches WriterEvent::Sync { result: Ok(_) },
            forall|earlier: int|
                begin <= earlier < step ==> (#[trigger] self.events[earlier]).output_result()
                    != Some(PairOutputResult::Ok(None)),
        ensures
            self.states[step].buffered == self.states[begin].buffered,
            self.states[step].phase == WriterPhase::SyncingLog || self.states[step].phase
                == WriterPhase::SyncingIndex ==> self.states[step].flushed
                == self.states[begin].buffered,
            ({
                let log_is_flushed = {
                    &&& begin < steps.0 < step
                    &&& self.answers(steps.0, PairOutput::FlushLog)
                };
                let both_are_flushed = self.states[begin].buffered != self.states[begin].flushed
                    ==> {
                    &&& log_is_flushed
                    &&& steps.0 < steps.1 < step
                    &&& self.answers(steps.1, PairOutput::FlushIndex)
                };
                match self.states[step].phase {
                    WriterPhase::SendingLog { synchronize } => synchronize,
                    WriterPhase::FlushingLog { synchronize } => synchronize,
                    WriterPhase::SendingIndex { synchronize } => synchronize && log_is_flushed,
                    WriterPhase::FlushingIndex { synchronize } => synchronize && log_is_flushed,
                    WriterPhase::SyncingLog => both_are_flushed,
                    WriterPhase::SyncingIndex => {
                        &&& both_are_flushed
                        &&& begin < steps.2 < step
                        &&& self.answers(steps.2, PairOutput::SyncLog)
                        &&& self.states[begin].buffered != self.states[begin].flushed ==> steps.1
                            < steps.2
                    },
                    _ => false,
                }
            }),
        decreases step,
    {
        assert(self.is_step(step - 1));
        assert(self.states[step].wf());
        assert(self.states[step - 1].wf());
        if step == begin + 1 {
            (begin, begin, begin)
        } else {
            let earlier = self.lemma_syncing(begin, step - 1);
            self.lemma_outstanding(step - 1);
            assert(self.events[step - 1].output_result() != Some(PairOutputResult::Ok(None)));
            if self.events[step - 1] is Reply {
                match self.states[step - 1].phase {
                    WriterPhase::FlushingLog { .. } => (step - 1, earlier.1, earlier.2),
                    WriterPhase::FlushingIndex { .. } => (earlier.0, step - 1, earlier.2),
                    WriterPhase::SyncingLog => (earlier.0, earlier.1, step - 1),
                    _ => earlier,
                }
            } else {
                earlier
            }
        }
    }

    /// A synchronization that completes has synchronized the log and then the index, successfully
    /// and since it was begun, and its end covers every record that was accepted before it: the
    /// synced, the flushed and the buffered end are the same. Where records were not flushed, the
    /// log was flushed and then the index before that.
    pub proof fn a_completed_sync_covers_every_record(self, begin: int, end: int) -> (syncs: (
        int,
        int,
        int,
        int,
    ))
        requires
            self.proceeds(),
            self.completes(begin, end),
            self.events[begin] matches WriterEvent::Sync { result: Ok(_) },
        ensures
            self.states[begin].buffered != self.states[begin].flushed ==> {
                &&& begin < syncs.0 < syncs.1 < syncs.2
                &&& self.answers(syncs.0, PairOutput::FlushLog)
                &&& self.answers(syncs.1, PairOutput::FlushIndex)
            },
            begin < syncs.2 < syncs.3 < end,
            self.answers(syncs.2, PairOutput::SyncLog),
            self.answers(syncs.3, PairOutput::SyncIndex),
            self.states[end].buffered == self.states[begin].buffered,
            self.states[end].flushed == self.states[begin].buffered,
            self.states[end].synced == self.states[begin].buffered,
            self.states[end].phase == WriterPhase::Open,
    {
        assert(self.is_step(begin));
        assert(self.states[begin].wf());
        assert(end > begin + 1);
        let steps = self.lemma_syncing(begin, end - 1);
        self.lemma_outstanding(end - 1);
        assert(self.is_step(end - 1));
        assert(self.states[end - 1].wf());
        (steps.0, steps.1, steps.2, end - 1)
    }

    /// A flush that has not completed: the log is flushed before the index.
    proof fn lemma_flushing(self, begin: int, step: int) -> (log_flush: int)
        requires
            self.proceeds(),
            0 <= begin < step < self.states.len(),
            self.events[begin] matches WriterEvent::Flush { result: Ok(_) },
            forall|earlier: int|
                begin <= earlier < step ==> (#[trigger] self.events[earlier]).output_result()
                    != Some(PairOutputResult::Ok(None)),
        ensures
            self.states[step].buffered == self.states[begin].buffered,
            self.states[step].synced == self.states[begin].synced,
            match self.states[step].phase {
                WriterPhase::SendingLog { synchronize } => !synchronize,
                WriterPhase::FlushingLog { synchronize } => !synchronize,
                WriterPhase::SendingIndex { synchronize } => {
                    &&& !synchronize
                    &&& begin < log_flush < step
                    &&& self.answers(log_flush, PairOutput::FlushLog)
                },
                WriterPhase::FlushingIndex { synchronize } => {
                    &&& !synchronize
                    &&& begin < log_flush < step
                    &&& self.answers(log_flush, PairOutput::FlushLog)
                },
                _ => false,
            },
        decreases step,
    {
        assert(self.is_step(step - 1));
        assert(self.states[step].wf());
        assert(self.states[step - 1].wf());
        if step == begin + 1 {
            begin
        } else {
            let earlier = self.lemma_flushing(begin, step - 1);
            self.lemma_outstanding(step - 1);
            assert(self.events[step - 1].output_result() != Some(PairOutputResult::Ok(None)));
            if self.states[step - 1].phase is FlushingLog {
                step - 1
            } else {
                earlier
            }
        }
    }

    /// A flush that completes covers every record that was accepted before it, and nothing becomes
    /// synced by it. Where there was something to flush, the log was flushed and then the index,
    /// successfully and since the flush was begun.
    pub proof fn a_completed_flush_covers_every_record(self, begin: int, end: int) -> (flushes: (
        int,
        int,
    ))
        requires
            self.proceeds(),
            self.completes(begin, end),
            self.events[begin] matches WriterEvent::Flush { result: Ok(_) },
        ensures
            self.states[begin].buffered != self.states[begin].flushed ==> {
                &&& begin < flushes.0 < flushes.1 < end
                &&& self.answers(flushes.0, PairOutput::FlushLog)
                &&& self.answers(flushes.1, PairOutput::FlushIndex)
            },
            self.states[end].buffered == self.states[begin].buffered,
            self.states[end].flushed == self.states[begin].buffered,
            self.states[end].synced == self.states[begin].synced,
            self.states[end].phase == WriterPhase::Open,
    {
        assert(self.is_step(begin));
        assert(self.states[begin].wf());
        if end == begin + 1 {
            (begin, begin)
        } else {
            assert(self.events[begin].output_result() != Some(PairOutputResult::Ok(None)));
            let log_flush = self.lemma_flushing(begin, end - 1);
            self.lemma_outstanding(end - 1);
            assert(self.is_step(end - 1));
            assert(self.states[end - 1].wf());
            (log_flush, end - 1)
        }
    }
}

impl PairOutput {
    /// Whether the request is one to the log; any other one is to the index.
    pub open spec fn is_to_log(self) -> bool {
        self == PairOutput::WriteLog || self == PairOutput::FlushLog || self == PairOutput::SyncLog
    }

    /// The file operation that the request asks for.
    pub open spec fn operation(self) -> FileRequest {
        match self {
            PairOutput::WriteLog | PairOutput::WriteIndex => FileRequest::Write,
            PairOutput::FlushLog | PairOutput::FlushIndex => FileRequest::Flush,
            PairOutput::SyncLog | PairOutput::SyncIndex => FileRequest::SyncData,
        }
    }
}

/// The operations on one writer together with the files that it writes to: `images` has one element
/// more than there are events, and `replies` holds what a file gave to the request that a reply
/// belongs to.
pub struct WriterFiles {
    pub writer: WriterRun,
    pub images: Seq<PairImage>,
    pub replies: Seq<FileReply>,
}

impl WriterFiles {
    /// Whether the file of the outstanding request gives the outcome that the `step`-th event hands
    /// back; any other event leaves the files alone.
    pub open spec fn is_served(self, step: int) -> bool {
        let before = self.images[step];
        let after = self.images[step + 1];
        match self.writer.events[step] {
            WriterEvent::Reply { reply, .. } => {
                &&& self.writer.outstanding(step) matches Some(request)
                &&& match self.replies[step] {
                    FileReply::Failed(error) => reply == Err::<usize, _>(error),
                    FileReply::Accepted(accepted) => reply == Ok::<usize, IoError>(accepted),
                    _ => reply is Ok,
                }
                &&& if request.is_to_log() {
                    &&& before.log.serves(
                        request.operation(),
                        self.writer.states[step].log.unsent(),
                        self.replies[step],
                        after.log,
                    )
                    &&& after.index == before.index
                } else {
                    &&& before.index.serves(
                        request.operation(),
                        self.writer.states[step].index.unsent(),
                        self.replies[step],
                        after.index,
                    )
                    &&& after.log == before.log
                }
            },
            _ => after == before,
        }
    }

    /// Whether the writer's files are positioned at their ends and give every outcome.
    pub open spec fn proceeds(self) -> bool {
        &&& self.writer.proceeds()
        &&& self.images.len() == self.writer.states.len()
        &&& self.replies.len() == self.writer.events.len()
        &&& self.images[0].log.cursor == self.images[0].log.bytes.len()
        &&& self.images[0].index.cursor == self.images[0].index.bytes.len()
        &&& self.images[0].log.bytes == self.writer.delivered[0].log
        &&& self.images[0].index.bytes == self.writer.delivered[0].index
        &&& forall|step: int|
            0 <= step < self.writer.events.len() ==> #[trigger] self.is_served(step)
    }

    /// The files hold what they have accepted, and nothing is sent between the log's
    /// synchronization and the index's.
    proof fn lemma_files(self, step: int)
        requires
            self.proceeds(),
            0 <= step < self.images.len(),
        ensures
            self.images[step].log.bytes == self.writer.delivered[step].log,
            self.images[step].index.bytes == self.writer.delivered[step].index,
            self.images[step].log.cursor == self.images[step].log.bytes.len(),
            self.images[step].index.cursor == self.images[step].index.bytes.len(),
            self.writer.states[step].phase == WriterPhase::SyncingIndex
                ==> self.images[step].log.durable == self.images[step].log.bytes,
        decreases step,
    {
        if step > 0 {
            let last: int = step - 1;
            self.lemma_files(last);
            self.writer.lemma_outstanding(last);
            assert(self.is_served(last));
            assert(self.writer.is_step(last));
            let before = self.writer.states[last];
            assert(before.wf());
            if let WriterEvent::Reply { reply, result } = self.writer.events[last] {
                let image = self.images[last];
                let delivered = self.writer.delivered[last];
                let next = self.writer.delivered[step];
                if let FileReply::Accepted(accepted) = self.replies[last] {
                    FileImage::lemma_writing_at_the_end_appends(
                        image.log.bytes,
                        before.log.unsent().take(accepted as int),
                    );
                    FileImage::lemma_writing_at_the_end_appends(
                        image.index.bytes,
                        before.index.unsent().take(accepted as int),
                    );
                }
                if !before.is_sending() {
                    assert(next.log =~= delivered.log);
                    assert(next.index =~= delivered.index);
                } else if self.replies[last] is Failed {
                    assert(next.log =~= delivered.log);
                    assert(next.index =~= delivered.index);
                } else if before.phase is SendingLog {
                    assert(next.index =~= delivered.index);
                } else {
                    assert(next.log =~= delivered.log);
                }
            }
        }
    }

    /// When a synchronization completes, both files hold exactly the accepted records and their
    /// ends behind what they held at the beginning, and all of it is durable.
    pub proof fn a_completed_sync_is_durable(self, begin: int, end: int)
        requires
            self.proceeds(),
            self.writer.completes(begin, end),
            self.writer.events[begin] matches WriterEvent::Sync { result: Ok(_) },
        ensures
            self.images[end].log.bytes == self.images[0].log.bytes + self.writer.accepted_bytes(end),
            self.images[end].index.bytes == self.images[0].index.bytes + index_entry::encode(
                self.writer.accepted_ends(end),
            ),
            self.images[end].log.durable == self.images[end].log.bytes,
            self.images[end].index.durable == self.images[end].index.bytes,
    {
        let syncs = self.writer.a_completed_sync_covers_every_record(begin, end);
        self.writer.a_completed_flush_has_delivered_the_accepted_records(end);
        self.lemma_files(end);
        self.lemma_files(end - 1);
        self.writer.lemma_outstanding(end - 1);
        assert(self.is_served(end - 1));
        assert(self.writer.is_step(end - 1));
        assert(self.writer.states[end - 1].wf());
        assert(self.writer.events[end - 1].output_result() == Some(PairOutputResult::Ok(None)));
        assert(self.writer.states[end - 1].phase == WriterPhase::SyncingIndex) by {
            let steps = self.writer.lemma_syncing(begin, end - 1);
        }
    }

    /// When a flush completes, both files hold exactly the accepted records and their ends behind
    /// what they held at the beginning.
    pub proof fn a_completed_flush_has_reached_the_files(self, begin: int, end: int)
        requires
            self.proceeds(),
            self.writer.completes(begin, end),
            self.writer.events[begin] matches WriterEvent::Flush { result: Ok(_) },
        ensures
            self.images[end].log.bytes == self.images[0].log.bytes + self.writer.accepted_bytes(end),
            self.images[end].index.bytes == self.images[0].index.bytes + index_entry::encode(
                self.writer.accepted_ends(end),
            ),
    {
        let flushes = self.writer.a_completed_flush_covers_every_record(begin, end);
        self.writer.a_completed_flush_has_delivered_the_accepted_records(end);
        self.lemma_files(end);
    }
}

} // verus!
