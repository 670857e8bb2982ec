use vstd::prelude::*;

use crate::location::{LogFileId, RecordEndLocation, RECORDS_PER_FILE};
use crate::record::{self, RecordHeader, RecordId, RecordReadError, SequenceNumber};
use crate::validation::record_scan::{self, ScanPhase};
use crate::validation::{LogTailError, ScanRequest};

verus! {

/// What a scan of the records behind a trusted prefix has accepted and how far it has come.
#[verifier::ext_equal]
pub struct SuffixScanState {
    pub file_id: LogFileId,
    pub start: Option<RecordEndLocation>,
    /// The accepted records, in file order.
    pub accepted: Seq<RecordHeader>,
    pub phase: ScanPhase,
}

impl SuffixScanState {
    pub open spec fn trusted_count(self) -> int {
        RecordEndLocation::count(self.start)
    }

    pub open spec fn start_position(self) -> int {
        RecordEndLocation::offset(self.start)
    }

    /// Number of the file's trusted and accepted records.
    pub open spec fn count(self) -> int {
        self.trusted_count() + self.accepted.len()
    }

    /// Exclusive end of the trusted and accepted records.
    pub open spec fn position(self) -> int {
        self.start_position() + record_scan::total_length(self.accepted)
    }

    /// The accepted records' exclusive ends.
    pub open spec fn ends(self) -> Seq<u64> {
        record_scan::ends_after(self.start_position(), self.accepted)
    }

    /// Sequence number of the record that can follow, if it is one at all.
    pub open spec fn next_sequence(self) -> int {
        self.file_id.first_sequence() + self.count()
    }

    /// The accepted records continue the file's sequence. Nothing more is fetched for a full file,
    /// and nothing behind a full file is diagnosed.
    pub open spec fn wf(self) -> bool {
        &&& record_scan::is_trusted_start(self.file_id, self.start)
        &&& self.count() <= RECORDS_PER_FILE
        &&& self.phase is Waiting ==> self.count() < RECORDS_PER_FILE
        &&& self.phase matches ScanPhase::Finished(Some(_)) ==> self.count() < RECORDS_PER_FILE
        &&& self.next_sequence() <= u64::MAX + 1
        &&& forall|i: int|
            0 <= i < self.accepted.len() ==> {
                &&& (#[trigger] self.accepted[i]).id == self.file_id.record_at(
                    self.trusted_count() + i,
                )
                &&& record::is_record_length(self.accepted[i].length@ as int)
            }
    }

    pub open spec fn with_phase(self, phase: ScanPhase) -> SuffixScanState {
        SuffixScanState { phase, ..self }
    }

    /// The scan before the next fetch: a full file needs none.
    pub open spec fn before_fetch(self) -> SuffixScanState {
        if self.count() == RECORDS_PER_FILE {
            self.with_phase(ScanPhase::Finished(None))
        } else {
            self.with_phase(ScanPhase::Waiting)
        }
    }

    /// The scan after a fetch.
    pub open spec fn waited(self, reply: Result<bool, RecordReadError>) -> SuffixScanState {
        match reply {
            Ok(true) => self.with_phase(ScanPhase::Reading),
            Ok(false) => self.with_phase(ScanPhase::Finished(None)),
            Err(error) => if error.is_operational() {
                self.with_phase(ScanPhase::Failed)
            } else {
                self.with_phase(ScanPhase::Finished(Some(LogTailError::Record(error))))
            },
        }
    }

    /// The scan after taking a fetched record.
    pub open spec fn read(
        self,
        reply: Result<Option<RecordHeader>, RecordReadError>,
    ) -> SuffixScanState {
        match reply {
            Err(_) => self.with_phase(ScanPhase::Failed),
            Ok(None) => self.before_fetch(),
            Ok(Some(record)) => if self.count() == RECORDS_PER_FILE {
                self.with_phase(ScanPhase::Finished(None))
            } else if self.next_sequence() > u64::MAX {
                self.with_phase(ScanPhase::Finished(Some(LogTailError::ExtraData)))
            } else if record.id != self.file_id.record_at(self.count()) {
                self.with_phase(
                    ScanPhase::Finished(
                        Some(
                            LogTailError::UnexpectedRecordId {
                                expected: self.file_id.record_at(self.count()),
                                actual: record.id,
                            },
                        ),
                    ),
                )
            } else {
                SuffixScanState { accepted: self.accepted.push(record), ..self }
            },
        }
    }

    /// The request that belongs to the phase.
    pub open spec fn request(self) -> ScanRequest {
        match self.phase {
            ScanPhase::Waiting => ScanRequest::WaitToRead,
            ScanPhase::Reading => ScanRequest::TryReadNext,
            _ => ScanRequest::Finished,
        }
    }

    /// The state at the beginning of a scan.
    pub open spec fn initial(file_id: LogFileId, start: Option<RecordEndLocation>) -> SuffixScanState {
        SuffixScanState {
            file_id,
            start,
            accepted: Seq::empty(),
            phase: ScanPhase::Waiting,
        }.before_fetch()
    }

    /// The accepted end lies within the extent that its record count allows.
    pub proof fn lemma_extent(self)
        requires
            self.wf(),
        ensures
            record::is_extent_of(self.position(), self.count()),
            self.start_position() <= self.position(),
    {
        record_scan::lemma_total_length_bounds(self.accepted);
    }

    /// The last end is the position of the accepted records.
    pub proof fn lemma_last_end(self)
        requires
            self.wf(),
            self.accepted.len() > 0,
        ensures
            self.ends().last() == self.position(),
    {
        self.lemma_extent();
        assert(self.accepted.take(self.accepted.len() as int) =~= self.accepted);
    }
}

/// Determines how far the records behind a trusted prefix are acceptable, in one forward pass.
///
/// Sequence and file rules apply to every record before a later encoding error is looked at, so the
/// diagnosis names the earliest bad record.
pub struct SuffixScan {
    file_id: LogFileId,
    start: Option<RecordEndLocation>,
    first_sequence: u64,
    ends: Vec<u64>,
    phase: ScanPhase,
    accepted: Ghost<Seq<RecordHeader>>,
}

impl View for SuffixScan {
    type V = SuffixScanState;

    closed spec fn view(&self) -> SuffixScanState {
        SuffixScanState {
            file_id: self.file_id,
            start: self.start,
            accepted: self.accepted@,
            phase: self.phase,
        }
    }
}

impl SuffixScan {
    /// The stored ends are those of the accepted records.
    pub closed spec fn wf(self) -> bool {
        &&& self@.wf()
        &&& self.first_sequence == self.file_id.first_sequence()
        &&& self.ends@ == self@.ends()
    }

    /// Begins a scan behind the trusted prefix.
    pub fn new(file_id: LogFileId, start: Option<RecordEndLocation>) -> (scan: SuffixScan)
        requires
            record_scan::is_trusted_start(file_id, start),
        ensures
            scan.wf(),
            scan@.wf(),
            scan@ == SuffixScanState::initial(file_id, start),
    {
        let count: u64 = RecordEndLocation::count_of(start);
        let first_sequence: u64 = file_id.first_record_id().sequence_number().get();
        proof {
            if let Some(end) = start {
                LogFileId::count_and_place_are_inverse(file_id, end.record_id);
            }
        }
        let phase = if count == RECORDS_PER_FILE {
            ScanPhase::Finished(None)
        } else {
            ScanPhase::Waiting
        };
        let scan = SuffixScan {
            file_id,
            start,
            first_sequence,
            ends: Vec::new(),
            phase,
            accepted: Ghost(Seq::empty()),
        };
        assert(scan.ends@ =~= scan@.ends());
        scan
    }

    pub fn request(&self) -> (request: ScanRequest)
        ensures
            request == self@.request(),
    {
        match self.phase {
            ScanPhase::Waiting => ScanRequest::WaitToRead,
            ScanPhase::Reading => ScanRequest::TryReadNext,
            _ => ScanRequest::Finished,
        }
    }

    fn count(&self) -> (count: u64)
        requires
            self.wf(),
        ensures
            count == self@.count(),
    {
        RecordEndLocation::count_of(self.start) + self.ends.len() as u64
    }

    /// Takes the outcome of a fetch. A failure of the decoder ends the scan and is handed back.
    pub fn waited(&mut self, reply: Result<bool, RecordReadError>) -> (result: Result<
        ScanRequest,
        RecordReadError,
    >)
        requires
            old(self).wf(),
            old(self)@.phase is Waiting,
        ensures
            final(self).wf(),
            final(self)@.wf(),
            final(self)@ == old(self)@.waited(reply),
            match result {
                Ok(request) => {
                    &&& reply matches Err(error) ==> !error.is_operational()
                    &&& request == final(self)@.request()
                },
                Err(error) => error.is_operational() && reply == Err::<bool, _>(error),
            },
    {
        match reply {
            Ok(available) => {
                self.phase = if available {
                    ScanPhase::Reading
                } else {
                    ScanPhase::Finished(None)
                };
            },
            Err(RecordReadError::Io(error)) => {
                self.phase = ScanPhase::Failed;
                return Err(RecordReadError::Io(error));
            },
            Err(RecordReadError::ReaderFailed { description }) => {
                self.phase = ScanPhase::Failed;
                return Err(RecordReadError::ReaderFailed { description });
            },
            Err(error) => {
                self.phase = ScanPhase::Finished(Some(LogTailError::Record(error)));
            },
        }
        Ok(self.request())
    }

    /// Takes a fetched record, or learns that none is left. A failure ends the scan and is handed
    /// back.
    pub fn read(&mut self, reply: Result<Option<RecordHeader>, RecordReadError>) -> (result: Result<
        ScanRequest,
        RecordReadError,
    >)
        requires
            old(self).wf(),
            old(self)@.phase is Reading,
        ensures
            final(self).wf(),
            final(self)@.wf(),
            final(self)@ == old(self)@.read(reply),
            match result {
                Ok(request) => reply is Ok && request == final(self)@.request(),
                Err(error) => reply == Err::<Option<RecordHeader>, _>(error),
            },
    {
        let count: u64 = self.count();
        match reply {
            Err(error) => {
                self.phase = ScanPhase::Failed;
                return Err(error);
            },
            Ok(None) => {
                self.phase = if count == RECORDS_PER_FILE {
                    ScanPhase::Finished(None)
                } else {
                    ScanPhase::Waiting
                };
            },
            Ok(Some(record)) => {
                if count == RECORDS_PER_FILE {
                    self.phase = ScanPhase::Finished(None);
                } else if u64::MAX - self.first_sequence < count {
                    self.phase = ScanPhase::Finished(Some(LogTailError::ExtraData));
                } else {
                    let expected = RecordId::new(
                        self.file_id.stream_id(),
                        SequenceNumber::new(self.first_sequence + count),
                    );
                    if record.id != expected {
                        self.phase = ScanPhase::Finished(
                            Some(
                                LogTailError::UnexpectedRecordId { expected, actual: record.id },
                            ),
                        );
                    } else {
                        self.accept(record);
                    }
                }
            },
        }
        Ok(self.request())
    }

    fn accept(&mut self, record: RecordHeader)
        requires
            old(self).wf(),
            old(self)@.phase is Reading,
            old(self)@.count() < RECORDS_PER_FILE,
            old(self)@.next_sequence() <= u64::MAX,
            record.id == old(self)@.file_id.record_at(old(self)@.count()),
        ensures
            final(self).wf(),
            final(self)@ == old(self)@.read(Ok(Some(record))),
    {
        let length: u64 = record.length.get();
        proof {
            self@.lemma_extent();
            record_scan::lemma_ends_after_push(self@.start_position(), self@.accepted, record);
            if self@.accepted.len() > 0 {
                self@.lemma_last_end();
            }
        }
        let scanned: usize = self.ends.len();
        let position: u64 = if scanned == 0 {
            RecordEndLocation::offset_of(self.start)
        } else {
            self.ends[scanned - 1]
        };
        self.ends.push(position + length);
        proof {
            self.accepted@ = self.accepted@.push(record);
        }
    }

    /// The complete findings of a finished scan.
    pub fn finish(self) -> (findings: SuffixFindings)
        requires
            self.wf(),
            self@.phase is Finished,
        ensures
            findings.wf(),
            findings@ == self@,
    {
        let ghost scanned = self@;
        let tail_error = match self.phase {
            ScanPhase::Finished(tail_error) => tail_error,
            _ => None,
        };
        SuffixFindings { ends: self.ends, tail_error, scanned: Ghost(scanned) }
    }
}

/// The findings of a finished scan.
pub struct SuffixFindings {
    ends: Vec<u64>,
    tail_error: Option<LogTailError>,
    scanned: Ghost<SuffixScanState>,
}

impl View for SuffixFindings {
    type V = SuffixScanState;

    closed spec fn view(&self) -> SuffixScanState {
        self.scanned@
    }
}

impl SuffixFindings {
    /// The stored findings are those of a finished scan.
    pub closed spec fn wf(self) -> bool {
        &&& self@.wf()
        &&& self@.phase == ScanPhase::Finished(self.tail_error)
        &&& self.ends@ == self@.ends()
    }

    /// What [`wf`](Self::wf) says of the scan. A diagnosed tail follows fewer records than the file
    /// has room for.
    pub proof fn lemma_wf(self)
        requires
            self.wf(),
        ensures
            self@.wf(),
            self@.phase is Finished,
            self@.phase matches ScanPhase::Finished(Some(_)) ==> self@.count() < RECORDS_PER_FILE,
    {
    }

    /// Takes the findings apart: the accepted records' ends and why they end, if bytes that a
    /// decoder saw follow them.
    pub fn into_parts(self) -> (parts: (Vec<u64>, Option<LogTailError>))
        requires
            self.wf(),
        ensures
            self@.wf(),
            parts.0@ == self@.ends(),
            self@.phase == ScanPhase::Finished(parts.1),
    {
        (self.ends, self.tail_error)
    }
}

} // verus!
