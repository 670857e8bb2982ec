//! Recovery finds what was written.
use vstd::prelude::*;

use crate::index_entry::INDEX_ENTRY_LEN;
use crate::indexed_log_validator::laws::{ValidatorRun, ValidatorStep};
use crate::indexed_log_validator::validator_state::ValidatorStage;
use crate::indexed_log_writer::laws::{WriterEvent, WriterRun};
use crate::indexed_log_writer::WriterPhase;
use crate::location::{LogFilePosition, RecordEndLocation};
use crate::record::{self, RecordHeader};
use crate::validation::indexed_log_laws::PairRecoveryRun;
use crate::validation::record_scan::{self, ScanPhase};
use crate::validation::record_scan_laws::{self, ScanRun};

verus! {

impl WriterRun {
    /// Whether `records` are the identities and lengths of the records that the first `steps`
    /// events had accepted, in order.
    pub open spec fn describes(self, records: Seq<RecordHeader>, steps: int) -> bool
        decreases steps,
    {
        if steps <= 0 {
            records.len() == 0
        } else {
            match self.events[steps - 1] {
                WriterEvent::Append { id, bytes, result: Ok(_) } => {
                    &&& records.len() > 0
                    &&& records.last().id == id
                    &&& records.last().length@ == bytes.len()
                    &&& self.describes(records.drop_last(), steps - 1)
                },
                _ => self.describes(records, steps - 1),
            }
        }
    }

    /// The offset that the first appended record begins at.
    pub open spec fn start(self) -> int {
        RecordEndLocation::offset(self.states[0].buffered)
    }

    /// The accepted records continue the file, take up the log from its end on, and have their own
    /// ends for entries.
    proof fn lemma_written(self, records: Seq<RecordHeader>, steps: int)
        requires
            self.proceeds(),
            0 <= steps < self.states.len(),
            self.describes(records, steps),
        ensures
            self.states[steps].file_id == self.states[0].file_id,
            self.states[steps].count == self.states[0].count + records.len(),
            RecordEndLocation::offset(self.states[steps].buffered) == self.start()
                + record_scan::total_length(records),
            self.states[steps].buffered == if records.len() == 0 {
                self.states[0].buffered
            } else {
                Some(
                    RecordEndLocation {
                        record_id: records.last().id,
                        position: LogFilePosition(
                            (self.start() + record_scan::total_length(records)) as u64,
                        ),
                    },
                )
            },
            self.accepted_bytes(steps).len() == record_scan::total_length(records),
            self.accepted_ends(steps) == record_scan::ends_after(self.start(), records),
            forall|i: int|
                0 <= i < records.len() ==> {
                    &&& (#[trigger] records[i]).id == self.states[0].file_id.record_at(
                        self.states[0].count + i,
                    )
                    &&& record::is_record_length(records[i].length@ as int)
                },
        decreases steps,
    {
        if steps == 0 {
            assert(self.accepted_ends(0) =~= record_scan::ends_after(self.start(), records));
        } else {
            let last: int = steps - 1;
            let before = self.states[last];
            let after = self.states[steps];
            assert(self.is_step(last));
            assert(before.wf());
            assert(after.wf());
            match self.events[last] {
                WriterEvent::Append { id, bytes, result: Ok(outcome) } => {
                    let earlier = records.drop_last();
                    self.lemma_written(earlier, last);
                    assert(records =~= earlier.push(records.last()));
                    record_scan::lemma_ends_after_push(self.start(), earlier, records.last());
                    assert(RecordEndLocation::offset(after.buffered) == RecordEndLocation::offset(
                        before.buffered,
                    ) + bytes.len());
                    assert forall|i: int| 0 <= i < records.len() implies {
                        &&& (#[trigger] records[i]).id == self.states[0].file_id.record_at(
                            self.states[0].count + i,
                        )
                        &&& record::is_record_length(records[i].length@ as int)
                    } by {
                        if i < earlier.len() {
                            assert(records[i] == earlier[i]);
                        }
                    }
                },
                WriterEvent::Reply { reply, result } => {
                    self.lemma_written(records, last);
                    before.an_end_moves_only_with_both_outputs(reply, after, result);
                },
                _ => {
                    self.lemma_written(records, last);
                },
            }
        }
    }
}

/// A scan behind the records that a writer began with accepts every written record that the decoder
/// hands out, in any grouping, and gives each of them the end that the writer gave it. When all of
/// them are handed out, the accepted end is the writer's.
pub proof fn a_scan_accepts_what_was_written(
    writer: WriterRun,
    steps: int,
    records: Seq<RecordHeader>,
    scan: ScanRun,
)
    requires
        writer.proceeds(),
        0 <= steps < writer.states.len(),
        writer.describes(records, steps),
        scan.proceeds(),
        scan.states[0].file_id == writer.states[0].file_id,
        scan.states[0].last_trusted == writer.states[0].buffered,
        record_scan_laws::handed_out(scan.events, scan.events.len() as int).is_prefix_of(records),
    ensures
        ({
            let handed_out = record_scan_laws::handed_out(scan.events, scan.events.len() as int);
            let scanned = scan.states.last();
            &&& scanned.accepted == handed_out
            &&& scanned.suffix_ends() == writer.accepted_ends(steps).take(handed_out.len() as int)
            &&& handed_out == records ==> scanned.validated_end() == writer.states[steps].buffered
        }),
{
    let handed_out = record_scan_laws::handed_out(scan.events, scan.events.len() as int);
    let scanned = scan.states.last();
    writer.lemma_written(records, steps);
    assert(writer.states[0].wf());
    scan.accepts_the_longest_continuing_prefix(scan.events.len() as int);
    if handed_out.len() == scanned.accepted.len() + 1 {
        let refused: int = scanned.accepted.len() as int;
        assert(handed_out[refused] == records[refused]);
        assert(handed_out[refused].id == scanned.expected());
    }
    assert(scanned.accepted =~= handed_out);
    assert forall|i: int| 0 <= i < handed_out.len() implies #[trigger] scanned.suffix_ends()[i]
        == writer.accepted_ends(steps)[i] by {
        assert(handed_out.take(i + 1) =~= records.take(i + 1));
    }
    assert(scanned.suffix_ends() =~= writer.accepted_ends(steps).take(handed_out.len() as int));
}

/// Validation of a flushed pair behind the records that its writer began with, with a decoder that
/// hands out every written record and then the end of the source, reports a clean pair that ends
/// where the writer ended: nothing is to be repaired, and it can be handed over.
pub proof fn validation_of_a_flushed_pair_finds_it_clean(
    writer: WriterRun,
    steps: int,
    validation: ValidatorRun,
    scan: int,
    later: int,
)
    requires
        writer.proceeds(),
        0 <= steps < writer.states.len(),
        writer.states[steps].phase == WriterPhase::Open,
        writer.states[steps].buffered == writer.states[steps].flushed,
        writer.delivered[0].log.len() == writer.start(),
        writer.delivered[0].index.len() == INDEX_ENTRY_LEN * writer.states[0].count,
        validation.proceeds(),
        validation.states[0].file_id == writer.states[0].file_id,
        validation.states[0].start == writer.states[0].buffered,
        validation.images[0].log.bytes == writer.delivered[steps].log,
        validation.images[0].index.bytes == writer.delivered[steps].index,
        0 <= scan < later < validation.states.len(),
        validation.has_not_failed(later),
        validation.steps[scan] matches ValidatorStep::Scan(Ok(scanned)) && writer.describes(
            scanned.accepted,
            steps,
        ) && scanned.phase == ScanPhase::Finished(None),
        validation.states[later].report is Some,
    ensures
        ({
            let report = validation.states[later].report->0;
            &&& report.end == writer.states[steps].buffered
            &&& report.record_count == writer.states[steps].count
            &&& report.tail_error is None
            &&& !report.needs_index_repair()
            &&& validation.states[later].stage == ValidatorStage::Idle
                ==> validation.states[later].handover_refusal() is None
        }),
{
    let scanned = validation.steps[scan]->Scan_0->Ok_0;
    let bytes = validation.images[0].index.bytes;
    let state = validation.states[later];
    writer.lemma_written(scanned.accepted, steps);
    writer.a_completed_flush_has_delivered_the_accepted_records(steps);
    validation.a_report_says_what_the_scan_found(scan, later);
    validation.the_matching_entries_are_all_that_match(later);
    validation.a_wrong_index_needs_repair(later);
    assert(writer.states[0].wf());
    assert(writer.states[steps].wf());
    assert(state.start == writer.states[0].buffered) by {
        validation.lemma_same_pair(later);
    }
    let trusted = INDEX_ENTRY_LEN * state.trusted_count();
    assert(bytes.take(trusted) =~= writer.delivered[0].index);
    if state.stage == ValidatorStage::Idle {
        validation.a_clean_pair_can_be_handed_over(later);
    }
}

/// Recovery of a flushed pair behind the records that its writer began with, with a decoder that
/// hands out every written record, changes neither file and ends where the writer ended.
pub proof fn recovery_of_a_flushed_pair_changes_nothing(
    writer: WriterRun,
    steps: int,
    recovery: PairRecoveryRun,
)
    requires
        writer.proceeds(),
        0 <= steps < writer.states.len(),
        writer.states[steps].phase == WriterPhase::Open,
        writer.states[steps].buffered == writer.states[steps].flushed,
        writer.delivered[0].log.len() == writer.start(),
        writer.delivered[0].index.len() == INDEX_ENTRY_LEN * writer.states[0].count,
        recovery.proceeds(),
        recovery.states[0].file_id == writer.states[0].file_id,
        recovery.states[0].last_trusted == writer.states[0].buffered,
        recovery.images[0].log.bytes == writer.delivered[steps].log,
        recovery.images[0].index.bytes == writer.delivered[steps].index,
        recovery.states.last().stage is Finished,
        writer.describes(recovery.states.last().stage->Finished_0.accepted, steps),
    ensures
        recovery.images.last().log.bytes == recovery.images[0].log.bytes,
        recovery.images.last().index.bytes == recovery.images[0].index.bytes,
        recovery.states.last().stage->Finished_0.validated_end() == writer.states[steps].buffered,
{
    let scanned = recovery.states.last().stage->Finished_0;
    let begin = recovery.images[0];
    writer.lemma_written(scanned.accepted, steps);
    writer.a_completed_flush_has_delivered_the_accepted_records(steps);
    recovery.a_finished_recovery_has_left_an_agreeing_pair();
    assert(writer.states[0].wf());
    assert(begin.log.bytes.take(scanned.position()) =~= begin.log.bytes);
    assert(begin.index.bytes.take(INDEX_ENTRY_LEN * scanned.trusted_count())
        =~= writer.delivered[0].index);
}

} // verus!
