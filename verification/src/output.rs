//! Delivery of a byte batch to a destination that accepts it piecemeal.
use vstd::prelude::*;

use crate::io_error::{IoError, IoErrorKind};

verus! {

/// What the owner of the destination does next.
#[derive(Clone, Copy, Debug, PartialEq, Eq, Structural)]
pub enum OutputRequest {
    /// Offer the unsent bytes and report how many were accepted.
    Write,
    /// Complete the destination's own buffering.
    Flush,
    /// Make accepted data durable.
    SyncData,
}

/// Why output was refused or failed.
#[derive(Debug)]
pub enum OutputError {
    /// The destination failed.
    Io(IoError),
    /// An earlier operation failed, or has begun and was not completed.
    Unusable,
}

/// The next request, or none when the operation has completed.
pub type OutputResult = Result<Option<OutputRequest>, OutputError>;

/// How far the current operation has come.
#[derive(Clone, Copy, Debug, PartialEq, Eq, Structural)]
pub enum OutputPhase {
    /// No operation is under way.
    Idle,
    /// The destination has accepted `sent` bytes of the batch.
    Sending { sent: usize },
    /// The destination is completing its own buffering.
    Flushing,
    /// The destination is making its data durable.
    Synchronizing,
    /// An operation failed.
    Failed,
}

/// The bytes of a batch and the progress of the operation on them.
#[verifier::ext_equal]
pub struct OutputState {
    pub bytes: Seq<u8>,
    pub phase: OutputPhase,
}

impl OutputState {
    /// Only part of the batch has been accepted while it is being sent.
    pub open spec fn wf(self) -> bool {
        &&& self.bytes.len() <= usize::MAX
        &&& self.phase matches OutputPhase::Sending { sent } ==> sent < self.bytes.len()
    }

    /// The bytes that the destination has not accepted yet.
    pub open spec fn unsent(self) -> Seq<u8> {
        match self.phase {
            OutputPhase::Sending { sent } => self.bytes.skip(sent as int),
            _ => self.bytes,
        }
    }

    pub open spec fn with_phase(self, phase: OutputPhase) -> OutputState {
        OutputState { bytes: self.bytes, phase }
    }

    /// An empty batch on which no operation is under way.
    pub open spec fn empty() -> OutputState {
        OutputState { bytes: Seq::empty(), phase: OutputPhase::Idle }
    }

    /// Whether `reply` reports no more accepted bytes than were offered.
    pub open spec fn offered(self, reply: Result<usize, IoError>) -> bool {
        self.phase is Sending ==> (reply matches Ok(accepted) ==> accepted <= self.unsent().len())
    }

    /// The bytes that the destination takes over with `reply`.
    pub open spec fn accepted(self, reply: Result<usize, IoError>) -> Seq<u8> {
        match (self.phase, reply) {
            (OutputPhase::Sending { .. }, Ok(accepted)) => self.unsent().take(accepted as int),
            _ => Seq::empty(),
        }
    }

    /// A reply that does not fail the operation moves the accepted bytes from the batch to the
    /// destination and keeps all others to be offered.
    pub proof fn a_reply_moves_bytes_once(
        self,
        reply: Result<usize, IoError>,
        after: OutputState,
        result: OutputResult,
    )
        requires
            self.wf(),
            self.offered(reply),
            self.resumed(reply, after, result),
            result is Ok,
        ensures
            after.wf(),
            self.accepted(reply) + after.unsent() == self.unsent(),
    {
        assert(self.accepted(reply) + after.unsent() =~= self.unsent());
    }

    /// A write that accepts part of the batch goes on with the rest of it, and one that accepts all
    /// of the rest ends the sending with an empty batch. An interrupted write is offered again as it
    /// was. A write that accepts nothing, and every other failure, is the end of the batch.
    pub proof fn sending_goes_on_until_all_is_accepted(
        self,
        reply: Result<usize, IoError>,
        after: OutputState,
        result: OutputResult,
    )
        requires
            self.wf(),
            self.phase is Sending,
            self.offered(reply),
            self.resumed(reply, after, result),
        ensures
            match reply {
                Ok(accepted) => if accepted == 0 {
                    after.phase == OutputPhase::Failed && result is Err
                } else if accepted == self.unsent().len() {
                    &&& after.bytes.len() == 0
                    &&& after.phase == OutputPhase::Idle
                    &&& result == OutputResult::Ok(None)
                } else {
                    &&& after.phase is Sending
                    &&& after.unsent() == self.unsent().skip(accepted as int)
                    &&& result == OutputResult::Ok(Some(OutputRequest::Write))
                },
                Err(error) => if error.kind == IoErrorKind::Interrupted {
                    after == self && result == OutputResult::Ok(Some(OutputRequest::Write))
                } else {
                    &&& after.phase == OutputPhase::Failed
                    &&& result == OutputResult::Err(OutputError::Io(error))
                },
            },
    {
        if let Ok(accepted) = reply {
            if 0 < accepted < self.unsent().len() {
                assert(after.unsent() =~= self.unsent().skip(accepted as int));
            }
        }
    }

    /// A flush and a synchronization ask for one operation, end with its success, and leave the
    /// batch as it is; its failure is handed on.
    pub proof fn flushing_and_synchronizing_leave_the_batch(
        self,
        reply: Result<usize, IoError>,
        after: OutputState,
        result: OutputResult,
    )
        requires
            self.phase == OutputPhase::Flushing || self.phase == OutputPhase::Synchronizing,
            self.resumed(reply, after, result),
        ensures
            after.bytes == self.bytes,
            match reply {
                Ok(_) => after.phase == OutputPhase::Idle && result == OutputResult::Ok(None),
                Err(error) => {
                    &&& after.phase == OutputPhase::Failed
                    &&& result == OutputResult::Err(OutputError::Io(error))
                },
            },
    {
    }

    /// An idle batch begins every operation, and keeps its bytes. Only the sending of an empty batch
    /// has nothing to ask for.
    pub proof fn an_idle_batch_begins(
        self,
        phase: OutputPhase,
        request: OutputRequest,
        after: OutputState,
        result: OutputResult,
    )
        requires
            self.phase == OutputPhase::Idle,
        ensures
            self.began(phase, request, after, result) ==> {
                &&& after.bytes == self.bytes
                &&& after.phase == phase
                &&& result == OutputResult::Ok(Some(request))
            },
            self.began_sending(after, result) && self.bytes.len() > 0 ==> {
                &&& after.bytes == self.bytes
                &&& after.unsent() == self.bytes
                &&& after.phase is Sending
                &&& result == OutputResult::Ok(Some(OutputRequest::Write))
            },
            self.began_sending(after, result) && self.bytes.len() == 0 ==> after == self && result
                == OutputResult::Ok(None),
    {
        if self.began_sending(after, result) && self.bytes.len() > 0 {
            assert(after.unsent() =~= self.bytes);
        }
    }

    /// After a failure every further operation and reply is refused and changes nothing.
    pub proof fn failure_is_final(
        self,
        phase: OutputPhase,
        request: OutputRequest,
        reply: Result<usize, IoError>,
        after: OutputState,
        result: OutputResult,
    )
        requires
            self.phase == OutputPhase::Failed,
            self.began(phase, request, after, result) || self.began_sending(after, result)
                || self.resumed(reply, after, result),
        ensures
            after == self,
            result == OutputResult::Err(OutputError::Unusable),
    {
    }

    /// While an operation is under way no other one can begin.
    pub proof fn an_operation_excludes_others(
        self,
        phase: OutputPhase,
        request: OutputRequest,
        after: OutputState,
        result: OutputResult,
    )
        requires
            self.phase != OutputPhase::Idle,
            self.began(phase, request, after, result) || self.began_sending(after, result),
        ensures
            after == self,
            result == OutputResult::Err(OutputError::Unusable),
    {
    }

    /// What beginning `phase` with `request` does: an idle batch enters the phase, any other one
    /// is refused unchanged.
    pub open spec fn began(
        self,
        phase: OutputPhase,
        request: OutputRequest,
        after: OutputState,
        result: OutputResult,
    ) -> bool {
        if self.phase == OutputPhase::Idle {
            after == self.with_phase(phase) && result == OutputResult::Ok(Some(request))
        } else {
            after == self && result == OutputResult::Err(OutputError::Unusable)
        }
    }

    /// What beginning to send does: there is nothing to do for an empty batch.
    pub open spec fn began_sending(
        self,
        after: OutputState,
        result: OutputResult,
    ) -> bool {
        if self.phase == OutputPhase::Idle && self.bytes.len() == 0 {
            after == self && result == OutputResult::Ok(None)
        } else {
            self.began(OutputPhase::Sending { sent: 0 }, OutputRequest::Write, after, result)
        }
    }

    /// What the destination's reply does.
    ///
    /// Accepted bytes are not offered again and the last of them ends the operation and empties
    /// the batch. An interrupted write is offered again. Every other failure, and a write that
    /// accepts nothing, ends all use of the batch and leaves its bytes in place.
    pub open spec fn resumed(
        self,
        reply: Result<usize, IoError>,
        after: OutputState,
        result: OutputResult,
    ) -> bool {
        match (self.phase, reply) {
            (OutputPhase::Idle, _) | (OutputPhase::Failed, _) => {
                after == self && result == OutputResult::Err(OutputError::Unusable)
            },
            (OutputPhase::Sending { sent }, Ok(accepted)) => {
                if accepted == 0 {
                    &&& after == self.with_phase(OutputPhase::Failed)
                    &&& result matches Err(OutputError::Io(error)) && error.is_write_zero()
                } else if sent + accepted == self.bytes.len() {
                    after == OutputState::empty() && result == OutputResult::Ok(None)
                } else {
                    &&& after == self.with_phase(
                        OutputPhase::Sending { sent: (sent + accepted) as usize },
                    )
                    &&& result == OutputResult::Ok(Some(OutputRequest::Write))
                }
            },
            (OutputPhase::Sending { .. }, Err(error)) => {
                if error.kind == IoErrorKind::Interrupted {
                    after == self && result == OutputResult::Ok(Some(OutputRequest::Write))
                } else {
                    &&& after == self.with_phase(OutputPhase::Failed)
                    &&& result == OutputResult::Err(OutputError::Io(error))
                }
            },
            (_, Ok(_)) => {
                after == self.with_phase(OutputPhase::Idle) && result == OutputResult::Ok(None)
            },
            (_, Err(error)) => {
                &&& after == self.with_phase(OutputPhase::Failed)
                &&& result == OutputResult::Err(OutputError::Io(error))
            },
        }
    }
}

/// The destination's replies to one batch and what came of them: `states` has one state more than
/// there are replies.
pub struct OutputRun {
    pub states: Seq<OutputState>,
    pub replies: Seq<Result<usize, IoError>>,
    pub results: Seq<OutputResult>,
}

impl OutputRun {
    /// Whether every state follows from the preceding one and no reply made the operation fail.
    pub open spec fn succeeds(self) -> bool {
        &&& self.states.len() == self.replies.len() + 1
        &&& self.results.len() == self.replies.len()
        &&& self.states[0].wf()
        &&& forall|i: int|
            0 <= i < self.replies.len() ==> {
                &&& (#[trigger] self.states[i]).offered(self.replies[i])
                &&& self.states[i].resumed(self.replies[i], self.states[i + 1], self.results[i])
                &&& self.results[i] is Ok
            }
    }

    /// All bytes that the destination has accepted, in the order of acceptance.
    pub open spec fn delivered(self) -> Seq<u8>
        decreases self.replies.len(),
    {
        if self.replies.len() == 0 {
            Seq::empty()
        } else {
            let last: int = self.replies.len() - 1;
            self.without_last().delivered() + self.states[last].accepted(self.replies[last])
        }
    }

    pub open spec fn without_last(self) -> OutputRun {
        OutputRun {
            states: self.states.drop_last(),
            replies: self.replies.drop_last(),
            results: self.results.drop_last(),
        }
    }

    /// However the destination splits a batch, the bytes it has accepted and the bytes still to be
    /// offered are together the bytes to send, in their order and each of them once.
    pub proof fn delivers_each_byte_once(self)
        requires
            self.succeeds(),
        ensures
            self.delivered() + self.states.last().unsent() == self.states[0].unsent(),
            self.states.last().wf(),
        decreases self.replies.len(),
    {
        if self.replies.len() > 0 {
            let before = self.without_last();
            let last: int = self.replies.len() - 1;
            assert forall|i: int| 0 <= i < before.replies.len() implies {
                &&& (#[trigger] before.states[i]).offered(before.replies[i])
                &&& before.states[i].resumed(
                    before.replies[i],
                    before.states[i + 1],
                    before.results[i],
                )
                &&& before.results[i] is Ok
            } by {
                assert(before.states[i] == self.states[i]);
            }
            before.delivers_each_byte_once();
            assert(before.states.last() == self.states[last]);
            self.states[last].a_reply_moves_bytes_once(
                self.replies[last],
                self.states[last + 1],
                self.results[last],
            );
        }
        assert(self.delivered() + self.states.last().unsent() =~= self.states[0].unsent());
    }

    /// A sending that has completed has delivered exactly the batch.
    pub proof fn a_completed_sending_delivered_the_batch(self)
        requires
            self.succeeds(),
            self.states[0].phase == (OutputPhase::Sending { sent: 0 }),
            self.states.last().bytes.len() == 0,
        ensures
            self.delivered() == self.states[0].bytes,
    {
        self.delivers_each_byte_once();
        assert(self.states.last().unsent() =~= Seq::empty());
        assert(self.states[0].unsent() =~= self.states[0].bytes);
        assert(self.delivered() + Seq::<u8>::empty() =~= self.delivered());
    }
}

/// A reusable byte batch with explicit sending, flushing and synchronization.
///
/// Each operation hands out one request at a time and learns its outcome through
/// [`resume`](Self::resume). Until the operation has completed successfully every other operation
/// is refused, so an operation that was abandoned half-way can never lead to the same bytes being
/// offered twice.
#[derive(Debug)]
pub struct OutputBatch {
    bytes: Vec<u8>,
    phase: OutputPhase,
}

impl View for OutputBatch {
    type V = OutputState;

    closed spec fn view(&self) -> OutputState {
        OutputState { bytes: self.bytes@, phase: self.phase }
    }
}

impl OutputBatch {
    pub fn new() -> (batch: OutputBatch)
        ensures
            batch@ == OutputState::empty(),
    {
        OutputBatch { bytes: Vec::new(), phase: OutputPhase::Idle }
    }

    pub fn is_usable(&self) -> (usable: bool)
        ensures
            usable == (self@.phase == OutputPhase::Idle),
    {
        matches!(self.phase, OutputPhase::Idle)
    }

    /// Adds bytes to the batch without any output.
    pub fn append(&mut self, bytes: &[u8]) -> (result: Result<(), OutputError>)
        requires
            old(self)@.wf(),
        ensures
            final(self)@.wf(),
            if old(self)@.phase == OutputPhase::Idle {
                &&& final(self)@ == (OutputState {
                    bytes: old(self)@.bytes + bytes@,
                    phase: OutputPhase::Idle,
                })
                &&& result == Ok::<(), OutputError>(())
            } else {
                &&& final(self)@ == old(self)@
                &&& result == Err::<(), _>(OutputError::Unusable)
            },
    {
        if !self.is_usable() {
            return Err(OutputError::Unusable);
        }
        self.bytes.extend_from_slice(bytes);
        assert(self.bytes@ =~= old(self).bytes@ + bytes@);
        assert(self.bytes@.len() == self.bytes.len());
        Ok(())
    }

    /// Begins to send the batch.
    pub fn send(&mut self) -> (result: OutputResult)
        requires
            old(self)@.wf(),
        ensures
            final(self)@.wf(),
            old(self)@.began_sending(final(self)@, result),
    {
        if !self.is_usable() {
            return Err(OutputError::Unusable);
        }
        if self.bytes.is_empty() {
            return Ok(None);
        }
        self.phase = OutputPhase::Sending { sent: 0 };
        Ok(Some(OutputRequest::Write))
    }

    /// Begins to complete the destination's own buffering. Unsent bytes stay unsent.
    pub fn flush(&mut self) -> (result: OutputResult)
        requires
            old(self)@.wf(),
        ensures
            final(self)@.wf(),
            old(self)@.began(OutputPhase::Flushing, OutputRequest::Flush, final(self)@, result),
    {
        if !self.is_usable() {
            return Err(OutputError::Unusable);
        }
        self.phase = OutputPhase::Flushing;
        Ok(Some(OutputRequest::Flush))
    }

    /// Begins to make accepted data durable. Unsent bytes stay unsent.
    pub fn sync_data(&mut self) -> (result: OutputResult)
        requires
            old(self)@.wf(),
        ensures
            final(self)@.wf(),
            old(self)@.began(
                OutputPhase::Synchronizing,
                OutputRequest::SyncData,
                final(self)@,
                result,
            ),
    {
        if !self.is_usable() {
            return Err(OutputError::Unusable);
        }
        self.phase = OutputPhase::Synchronizing;
        Ok(Some(OutputRequest::SyncData))
    }

    /// The bytes that a write offers.
    pub fn unsent(&self) -> (bytes: &[u8])
        requires
            self@.wf(),
        ensures
            bytes@ == self@.unsent(),
    {
        let length: usize = self.bytes.len();
        match self.phase {
            OutputPhase::Sending { sent } => {
                vstd::slice::slice_subrange(self.bytes.as_slice(), sent, length)
            },
            _ => self.bytes.as_slice(),
        }
    }

    /// Takes the outcome of the last request and gives the next one, or none when the operation
    /// has completed.
    ///
    /// A write's outcome is the number of accepted bytes; the number that comes with a successful
    /// flush or synchronization means nothing.
    pub fn resume(&mut self, reply: Result<usize, IoError>) -> (result: OutputResult)
        requires
            old(self)@.wf(),
            old(self)@.offered(reply),
        ensures
            final(self)@.wf(),
            old(self)@.resumed(reply, final(self)@, result),
    {
        match self.phase {
            OutputPhase::Idle | OutputPhase::Failed => Err(OutputError::Unusable),
            OutputPhase::Sending { sent } => {
                match reply {
                    Ok(accepted) => {
                        if accepted == 0 {
                            self.phase = OutputPhase::Failed;
                            Err(OutputError::Io(IoError::write_zero()))
                        } else if accepted == self.bytes.len() - sent {
                            self.bytes.clear();
                            self.phase = OutputPhase::Idle;
                            Ok(None)
                        } else {
                            self.phase = OutputPhase::Sending { sent: sent + accepted };
                            Ok(Some(OutputRequest::Write))
                        }
                    },
                    Err(error) => {
                        if error.kind() == IoErrorKind::Interrupted {
                            Ok(Some(OutputRequest::Write))
                        } else {
                            self.phase = OutputPhase::Failed;
                            Err(OutputError::Io(error))
                        }
                    },
                }
            },
            OutputPhase::Flushing | OutputPhase::Synchronizing => {
                match reply {
                    Ok(_) => {
                        self.phase = OutputPhase::Idle;
                        Ok(None)
                    },
                    Err(error) => {
                        self.phase = OutputPhase::Failed;
                        Err(OutputError::Io(error))
                    },
                }
            },
        }
    }
}

} // verus!
