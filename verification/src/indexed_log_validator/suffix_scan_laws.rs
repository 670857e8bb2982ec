//! What a scan of a suffix accepts, however the decoder groups the records.
use vstd::prelude::*;

use crate::indexed_log_validator::suffix_scan::SuffixScanState;
use crate::location::{RecordEndLocation, RECORDS_PER_FILE};
use crate::validation::record_scan::ScanPhase;
use crate::validation::record_scan_laws::{self, DecoderEvent};
use crate::validation::{LogTailError, ScanRequest};

verus! {

/// A scan and the decoder's outcomes: `states` has one element more than there are events.
pub struct SuffixRun {
    pub states: Seq<SuffixScanState>,
    pub events: Seq<DecoderEvent>,
}

impl SuffixRun {
    pub open spec fn is_step(self, step: int) -> bool {
        match self.events[step] {
            DecoderEvent::Fetched(reply) => {
                self.states[step].phase is Waiting && self.states[step + 1]
                    == self.states[step].waited(reply)
            },
            DecoderEvent::Taken(reply) => {
                self.states[step].phase is Reading && self.states[step + 1]
                    == self.states[step].read(reply)
            },
        }
    }

    /// Whether the run begins a scan and every event leads to the following state.
    pub open spec fn proceeds(self) -> bool {
        &&& self.states.len() == self.events.len() + 1
        &&& self.states[0] == SuffixScanState::initial(self.states[0].file_id, self.states[0].start)
        &&& self.states[0].wf()
        &&& forall|step: int| 0 <= step < self.events.len() ==> #[trigger] self.is_step(step)
    }

    /// The accepted records are the longest run of handed-out records that continues the file's
    /// sequence behind the trusted prefix. At most one further record was handed out, and the scan
    /// has finished with it: cleanly where the file is full, otherwise with the diagnosis that the
    /// stream has no place for it or that it breaks the sequence.
    pub proof fn accepts_the_longest_continuing_prefix(self, step: int)
        requires
            self.proceeds(),
            0 <= step < self.states.len(),
        ensures
            ({
                let state = self.states[step];
                let records = record_scan_laws::handed_out(self.events, step);
                let accepted = state.accepted.len() as int;
                &&& state.file_id == self.states[0].file_id
                &&& state.start == self.states[0].start
                &&& accepted <= records.len() <= accepted + 1
                &&& state.accepted == records.take(accepted)
                &&& state.count() <= RECORDS_PER_FILE
                &&& state.next_sequence() <= u64::MAX + 1
                &&& forall|i: int|
                    0 <= i < accepted ==> (#[trigger] state.accepted[i]).id
                        == state.file_id.record_at(state.trusted_count() + i)
                &&& records.len() == accepted + 1 ==> if state.count() == RECORDS_PER_FILE {
                    state.phase == ScanPhase::Finished(None)
                } else if state.next_sequence() > u64::MAX {
                    state.phase == ScanPhase::Finished(Some(LogTailError::ExtraData))
                } else {
                    &&& records[accepted].id != state.file_id.record_at(state.count())
                    &&& state.phase == ScanPhase::Finished(
                        Some(
                            LogTailError::UnexpectedRecordId {
                                expected: state.file_id.record_at(state.count()),
                                actual: records[accepted].id,
                            },
                        ),
                    )
                }
            }),
        decreases step,
    {
        if step == 0 {
            assert(self.states[0].accepted =~= record_scan_laws::handed_out(self.events, 0).take(0));
        } else {
            self.accepts_the_longest_continuing_prefix(step - 1);
            assert(self.is_step(step - 1));
            let before = self.states[step - 1];
            let after = self.states[step];
            let earlier = record_scan_laws::handed_out(self.events, step - 1);
            assert(earlier.take(earlier.len() as int) =~= earlier);
            match self.events[step - 1] {
                DecoderEvent::Taken(Ok(Some(record))) => {
                    let records = record_scan_laws::handed_out(self.events, step);
                    assert(records == earlier.push(record));
                    assert(before.accepted =~= earlier);
                    assert(after.accepted =~= records.take(after.accepted.len() as int));
                },
                _ => {},
            }
        }
    }
}

impl SuffixRun {
    /// A scan that has accepted every record it was handed finishes cleanly when the file is full,
    /// and otherwise as the last fetch says.
    pub proof fn lemma_finish(self, step: int)
        requires
            self.proceeds(),
            0 <= step < self.states.len(),
        ensures
            self.states[step].phase is Waiting ==> self.states[step].count() < RECORDS_PER_FILE,
            self.states[step].accepted.len() == record_scan_laws::handed_out(
                self.events,
                step,
            ).len() && self.states[step].phase is Finished ==> if self.states[step].count()
                == RECORDS_PER_FILE {
                self.states[step].phase == ScanPhase::Finished(None)
            } else {
                &&& record_scan_laws::last_fetch(self.events, step) matches Some(reply)
                &&& self.states[step].phase == self.states[step].waited(reply).phase
            },
        decreases step,
    {
        self.accepts_the_longest_continuing_prefix(step);
        if step > 0 {
            self.lemma_finish(step - 1);
            self.accepts_the_longest_continuing_prefix(step - 1);
            assert(self.is_step(step - 1));
        }
    }
}

impl SuffixRun {
    /// A scan ends for one of these reasons: the file is full; the decoder has come to the end of
    /// the source, or to damage, which is the diagnosis; a record cannot follow. It fails exactly
    /// when the decoder itself has failed. In any other case it goes on to fetch or to take a
    /// record.
    pub proof fn a_scan_ends_as_the_decoder_says(self, step: int)
        requires
            self.proceeds(),
            0 <= step < self.states.len(),
        ensures
            ({
                let state = self.states[step];
                let records = record_scan_laws::handed_out(self.events, step);
                let count = RecordEndLocation::count(state.start) + state.accepted.len();
                &&& state.phase is Failed <==> {
                    &&& step > 0
                    &&& match self.events[step - 1] {
                        DecoderEvent::Fetched(Err(error)) => error is Io || error is ReaderFailed,
                        DecoderEvent::Taken(Err(_)) => true,
                        _ => false,
                    }
                }
                &&& records.len() == state.accepted.len() && state.phase is Finished
                    ==> if count == 100_000 {
                    state.phase == ScanPhase::Finished(None)
                } else {
                    match record_scan_laws::last_fetch(self.events, step) {
                        Some(Ok(false)) => state.phase == ScanPhase::Finished(None),
                        Some(Err(error)) => state.phase == ScanPhase::Finished(
                            Some(LogTailError::Record(error)),
                        ),
                        _ => false,
                    }
                }
                &&& count == 100_000 ==> {
                    &&& !(state.phase is Waiting)
                    &&& step == 0 ==> state.phase == ScanPhase::Finished(None)
                    &&& step > 0 && self.events[step - 1] == DecoderEvent::Taken(Ok(None))
                        ==> state.phase == ScanPhase::Finished(None)
                }
                &&& step == 0 && count < 100_000 ==> state.phase is Waiting
                &&& step > 0 && count < 100_000 ==> match self.events[step - 1] {
                    DecoderEvent::Fetched(Ok(true)) => state.phase is Reading,
                    DecoderEvent::Fetched(Ok(false)) => state.phase == ScanPhase::Finished(None),
                    DecoderEvent::Fetched(Err(error)) => state.phase is Failed || state.phase
                        == ScanPhase::Finished(Some(LogTailError::Record(error))),
                    DecoderEvent::Taken(Ok(None)) => state.phase is Waiting,
                    DecoderEvent::Taken(Ok(Some(_))) => {
                        records.len() == state.accepted.len() <==> state.phase is Reading
                    },
                    _ => state.phase is Failed,
                }
            }),
        decreases step,
    {
        self.accepts_the_longest_continuing_prefix(step);
        self.lemma_finish(step);
        if step > 0 {
            self.a_scan_ends_as_the_decoder_says(step - 1);
            self.accepts_the_longest_continuing_prefix(step - 1);
            assert(self.is_step(step - 1));
        }
    }
}

impl SuffixScanState {
    /// A scan asks for a fetch or for a record until it has finished or failed.
    pub proof fn a_scan_asks_until_it_ends(self)
        ensures
            self.request() == ScanRequest::WaitToRead <==> self.phase is Waiting,
            self.request() == ScanRequest::TryReadNext <==> self.phase is Reading,
            self.request() == ScanRequest::Finished <==> self.phase is Finished || self.phase
                is Failed,
    {
    }

    /// The accepted ends grow by exactly the records' lengths from the trusted end on.
    pub proof fn ends_are_the_records_boundaries(self, index: int)
        requires
            self.wf(),
            0 <= index < self.accepted.len(),
        ensures
            self.ends().len() == self.accepted.len(),
            self.ends()[index] - (if index == 0 {
                RecordEndLocation::offset(self.start)
            } else {
                self.ends()[index - 1] as int
            }) == self.accepted[index].length@,
    {
        let upto = self.accepted.take(index + 1);
        assert(upto.drop_last() =~= self.accepted.take(index));
        let prefix = SuffixScanState { accepted: upto, phase: ScanPhase::Failed, ..self };
        assert(prefix.wf());
        prefix.lemma_extent();
        let shorter = SuffixScanState {
            accepted: self.accepted.take(index),
            phase: ScanPhase::Failed,
            ..self
        };
        assert(shorter.wf());
        shorter.lemma_extent();
        if index == 0 {
            assert(self.accepted.take(0) =~= Seq::empty());
        }
    }
}

/// How the decoder groups the records into batches does not matter: two scans behind the same end
/// that were handed the same records have accepted the same ones. Once both have finished, behind
/// the same outcome of the last fetch, all of their findings are the same, the diagnosis of the
/// tail among them.
pub proof fn grouping_does_not_matter(one: SuffixRun, other: SuffixRun)
    requires
        one.proceeds(),
        other.proceeds(),
        one.states[0] == other.states[0],
        record_scan_laws::handed_out(one.events, one.events.len() as int)
            == record_scan_laws::handed_out(other.events, other.events.len() as int),
    ensures
        one.states.last().accepted == other.states.last().accepted,
        one.states.last().ends() == other.states.last().ends(),
        one.states.last().phase is Finished && other.states.last().phase is Finished
            && record_scan_laws::last_fetch(one.events, one.events.len() as int)
            == record_scan_laws::last_fetch(other.events, other.events.len() as int)
            ==> one.states.last() == other.states.last(),
{
    one.accepts_the_longest_continuing_prefix(one.events.len() as int);
    other.accepts_the_longest_continuing_prefix(other.events.len() as int);
    let records = record_scan_laws::handed_out(one.events, one.events.len() as int);
    let last = records.len() - 1;
    let (left, right) = (one.states.last(), other.states.last());
    if left.accepted.len() > right.accepted.len() {
        assert(left.accepted[last].id == right.file_id.record_at(right.count()));
    } else if right.accepted.len() > left.accepted.len() {
        assert(right.accepted[last].id == left.file_id.record_at(left.count()));
    }
    one.lemma_finish(one.events.len() as int);
    other.lemma_finish(other.events.len() as int);
}

} // verus!
