//! What a scan accepts, however the decoder groups the records.
use vstd::prelude::*;

use crate::location::{RecordEndLocation, RECORDS_PER_FILE};
use crate::record::{RecordHeader, RecordReadError};
use crate::validation::record_scan::{self, ScanPhase, ScanState};
use crate::validation::{LogTailError, ScanRequest};

verus! {

/// One outcome of the decoder.
pub enum DecoderEvent {
    Fetched(Result<bool, RecordReadError>),
    Taken(Result<Option<RecordHeader>, RecordReadError>),
}

/// The records that the first `count` events handed out, however they were grouped.
pub open spec fn handed_out(events: Seq<DecoderEvent>, count: int) -> Seq<RecordHeader>
    decreases count,
{
    if count <= 0 {
        Seq::empty()
    } else {
        match events[count - 1] {
            DecoderEvent::Taken(Ok(Some(record))) => handed_out(events, count - 1).push(record),
            _ => handed_out(events, count - 1),
        }
    }
}

/// The outcome of the last fetch among the first `count` events, if there was one.
pub open spec fn last_fetch(events: Seq<DecoderEvent>, count: int) -> Option<
    Result<bool, RecordReadError>,
>
    decreases count,
{
    if count <= 0 {
        None
    } else {
        match events[count - 1] {
            DecoderEvent::Fetched(reply) => Some(reply),
            _ => last_fetch(events, count - 1),
        }
    }
}

/// A scan and the decoder's outcomes: `states` has one element more than there are events.
pub struct ScanRun {
    pub states: Seq<ScanState>,
    pub events: Seq<DecoderEvent>,
}

impl ScanRun {
    pub open spec fn is_step(self, step: int) -> bool {
        match self.events[step] {
            DecoderEvent::Fetched(reply) => {
                self.states[step].phase is Waiting && self.states[step + 1]
                    == self.states[step].waited(reply)
            },
            DecoderEvent::Taken(reply) => {
                self.states[step].phase is Reading && self.states[step + 1]
                    == self.states[step].read(reply)
            },
        }
    }

    /// Whether the run begins a scan and every event leads to the following state.
    pub open spec fn proceeds(self) -> bool {
        &&& self.states.len() == self.events.len() + 1
        &&& self.states[0] == ScanState::initial(
            self.states[0].file_id,
            self.states[0].last_trusted,
            self.states[0].file_length,
        )
        &&& self.states[0].count() <= RECORDS_PER_FILE
        &&& forall|step: int| 0 <= step < self.events.len() ==> #[trigger] self.is_step(step)
    }

    /// The accepted records are the longest run of handed-out records that continues the file's
    /// sequence behind the trusted prefix: at most one further record was handed out, and that one
    /// breaks the sequence and is diagnosed. Fetches and empty batches do not matter.
    pub proof fn accepts_the_longest_continuing_prefix(self, step: int)
        requires
            self.proceeds(),
            0 <= step < self.states.len(),
        ensures
            ({
                let state = self.states[step];
                let records = handed_out(self.events, step);
                let accepted = state.accepted.len() as int;
                &&& state.file_id == self.states[0].file_id
                &&& state.last_trusted == self.states[0].last_trusted
                &&& accepted <= records.len() <= accepted + 1
                &&& state.accepted == records.take(accepted)
                &&& state.count() <= RECORDS_PER_FILE
                &&& forall|i: int|
                    0 <= i < accepted ==> (#[trigger] state.accepted[i]).id
                        == state.file_id.record_at(state.trusted_count() + i)
                &&& records.len() == accepted + 1 ==> {
                    &&& records[accepted].id != state.expected()
                    &&& state.phase == ScanPhase::Finished(
                        Some(
                            LogTailError::UnexpectedRecordId {
                                expected: state.expected(),
                                actual: records[accepted].id,
                            },
                        ),
                    )
                }
                &&& state.phase is Waiting || state.phase is Reading ==> state.count()
                    < RECORDS_PER_FILE
            }),
        decreases step,
    {
        if step == 0 {
            assert(self.states[0].accepted =~= handed_out(self.events, 0).take(0));
        } else {
            self.accepts_the_longest_continuing_prefix(step - 1);
            assert(self.is_step(step - 1));
            let before = self.states[step - 1];
            let after = self.states[step];
            let earlier = handed_out(self.events, step - 1);
            assert(earlier.take(earlier.len() as int) =~= earlier);
            match self.events[step - 1] {
                DecoderEvent::Taken(Ok(Some(record))) => {
                    let records = handed_out(self.events, step);
                    assert(records == earlier.push(record));
                    assert(before.accepted =~= earlier);
                    assert(after.accepted =~= records.take(after.accepted.len() as int));
                },
                _ => {},
            }
        }
    }
}

impl ScanRun {
    /// A scan that has accepted every record it was handed finishes because the file is full, or
    /// as the last fetch says.
    pub proof fn lemma_finish(self, step: int)
        requires
            self.proceeds(),
            0 <= step < self.states.len(),
        ensures
            self.states[step].file_length == self.states[0].file_length,
            self.states[step].count() == RECORDS_PER_FILE && self.states[step].accepted.len()
                == handed_out(self.events, step).len() ==> self.states[step].phase
                == self.states[step].before_fetch().phase,
            self.states[step].count() < RECORDS_PER_FILE && self.states[step].accepted.len()
                == handed_out(self.events, step).len() && self.states[step].phase is Finished ==> {
                &&& last_fetch(self.events, step) matches Some(reply)
                &&& self.states[step].phase == self.states[step].waited(reply).phase
            },
        decreases step,
    {
        self.accepts_the_longest_continuing_prefix(step);
        if step > 0 {
            self.lemma_finish(step - 1);
            self.accepts_the_longest_continuing_prefix(step - 1);
            assert(self.is_step(step - 1));
        }
    }
}

impl ScanRun {
    /// A scan ends for one of these reasons: the file is full, and bytes behind its last record are
    /// diagnosed; the decoder has come to the end of the source, or to damage, which is the
    /// diagnosis; a record breaks the sequence. It fails exactly when the decoder itself has failed.
    /// In any other case it goes on to fetch or to take a record.
    pub proof fn a_scan_ends_as_the_decoder_says(self, step: int)
        requires
            self.proceeds(),
            0 <= step < self.states.len(),
        ensures
            ({
                let state = self.states[step];
                let records = handed_out(self.events, step);
                let position = RecordEndLocation::offset(state.last_trusted)
                    + record_scan::total_length(state.accepted);
                let count = RecordEndLocation::count(state.last_trusted) + state.accepted.len();
                &&& state.phase is Failed <==> {
                    &&& step > 0
                    &&& match self.events[step - 1] {
                        DecoderEvent::Fetched(Err(error)) => error is Io || error is ReaderFailed,
                        DecoderEvent::Taken(Err(_)) => true,
                        _ => false,
                    }
                }
                &&& records.len() == state.accepted.len() && state.phase is Finished
                    ==> if count == 100_000 {
                    state.phase == ScanPhase::Finished(
                        if position < state.file_length {
                            Some(LogTailError::ExtraData)
                        } else {
                            None
                        },
                    )
                } else {
                    match last_fetch(self.events, step) {
                        Some(Ok(false)) => state.phase == ScanPhase::Finished(None),
                        Some(Err(error)) => state.phase == ScanPhase::Finished(
                            Some(LogTailError::Record(error)),
                        ),
                        _ => false,
                    }
                }
                &&& count == 100_000 ==> state.phase is Finished
                &&& step == 0 && count < 100_000 ==> state.phase is Waiting
                &&& step > 0 && count < 100_000 ==> match self.events[step - 1] {
                    DecoderEvent::Fetched(Ok(true)) => state.phase is Reading,
                    DecoderEvent::Fetched(Ok(false)) => state.phase == ScanPhase::Finished(None),
                    DecoderEvent::Fetched(Err(error)) => state.phase is Failed || state.phase
                        == ScanPhase::Finished(Some(LogTailError::Record(error))),
                    DecoderEvent::Taken(Ok(None)) => state.phase is Waiting,
                    DecoderEvent::Taken(Ok(Some(_))) => {
                        records.len() == state.accepted.len() <==> state.phase is Reading
                    },
                    _ => state.phase is Failed,
                }
                &&& state.file_length == self.states[0].file_length
            }),
        decreases step,
    {
        self.accepts_the_longest_continuing_prefix(step);
        self.lemma_finish(step);
        if step > 0 {
            self.a_scan_ends_as_the_decoder_says(step - 1);
            self.accepts_the_longest_continuing_prefix(step - 1);
            assert(self.is_step(step - 1));
        }
    }
}

/// How the decoder groups the records into batches does not matter: two scans of the same file
/// that were handed the same records have accepted the same ones. Once both have finished, behind
/// the same outcome of the last fetch, all of their findings are the same, the diagnosis of the
/// tail among them.
pub proof fn grouping_does_not_matter(one: ScanRun, other: ScanRun)
    requires
        one.proceeds(),
        other.proceeds(),
        one.states[0] == other.states[0],
        handed_out(one.events, one.events.len() as int) == handed_out(
            other.events,
            other.events.len() as int,
        ),
    ensures
        one.states.last().accepted == other.states.last().accepted,
        one.states.last().suffix_ends() == other.states.last().suffix_ends(),
        one.states.last().validated_end() == other.states.last().validated_end(),
        one.states.last().phase is Finished && other.states.last().phase is Finished && last_fetch(
            one.events,
            one.events.len() as int,
        ) == last_fetch(other.events, other.events.len() as int) ==> one.states.last()
            == other.states.last(),
{
    one.accepts_the_longest_continuing_prefix(one.events.len() as int);
    other.accepts_the_longest_continuing_prefix(other.events.len() as int);
    let records = handed_out(one.events, one.events.len() as int);
    let last = records.len() - 1;
    let (left, right) = (one.states.last(), other.states.last());
    if left.accepted.len() > right.accepted.len() {
        assert(left.accepted[last].id == right.expected());
    } else if right.accepted.len() > left.accepted.len() {
        assert(right.accepted[last].id == left.expected());
    }
    one.lemma_finish(one.events.len() as int);
    other.lemma_finish(other.events.len() as int);
}

impl ScanState {
    /// A scan asks for a fetch or for a record until it has finished or failed.
    pub proof fn a_scan_asks_until_it_ends(self)
        ensures
            self.request() == ScanRequest::WaitToRead <==> self.phase is Waiting,
            self.request() == ScanRequest::TryReadNext <==> self.phase is Reading,
            self.request() == ScanRequest::Finished <==> self.phase is Finished || self.phase
                is Failed,
    {
    }

    /// The accepted ends grow by exactly the records' lengths, and the last one is the end of the
    /// accepted records.
    pub proof fn ends_are_the_records_boundaries(self, index: int)
        requires
            self.wf(),
            0 <= index < self.accepted.len(),
        ensures
            self.suffix_ends()[index] - (if index == 0 {
                self.start()
            } else {
                self.suffix_ends()[index - 1] as int
            }) == self.accepted[index].length@,
            index == self.accepted.len() - 1 ==> self.suffix_ends()[index] == self.position()
                && self.validated_end()->0.position.0 == self.suffix_ends()[index],
    {
        self.lemma_extent();
        let upto = self.accepted.take(index + 1);
        assert(upto.drop_last() =~= self.accepted.take(index));
        let prefix = ScanState { accepted: upto, phase: ScanPhase::Failed, ..self };
        assert(prefix.wf());
        prefix.lemma_extent();
        let shorter = ScanState {
            accepted: self.accepted.take(index),
            phase: ScanPhase::Failed,
            ..self
        };
        assert(shorter.wf());
        shorter.lemma_extent();
        if index == 0 {
            assert(self.accepted.take(0) =~= Seq::empty());
        }
        assert(self.accepted.take(self.accepted.len() as int) =~= self.accepted);
    }
}

} // verus!
