use vstd::prelude::*;

use crate::location::{LogFileId, LogFilePosition, RecordEndLocation, RECORDS_PER_FILE};
use crate::record::{self, RecordHeader, RecordId, RecordReadError};
use crate::validation::LogTailError;

verus! {

/// Total encoded length of the given records.
pub open spec fn total_length(records: Seq<RecordHeader>) -> int
    decreases records.len(),
{
    if records.len() == 0 {
        0
    } else {
        total_length(records.drop_last()) + records.last().length@
    }
}

/// The exclusive ends of the given records, the first of which begins at `start`.
pub open spec fn ends_after(start: int, records: Seq<RecordHeader>) -> Seq<u64> {
    Seq::new(records.len(), |i: int| (start + total_length(records.take(i + 1))) as u64)
}

/// Whether `last_trusted` may be the end of a trusted prefix of the file.
pub open spec fn is_trusted_start(file_id: LogFileId, last_trusted: Option<RecordEndLocation>) -> bool {
    &&& last_trusted matches Some(end) ==> file_id.assigns(end.record_id)
    &&& record::is_extent_of(
        RecordEndLocation::offset(last_trusted),
        RecordEndLocation::count(last_trusted),
    )
}

/// What the owner of the record decoder does next.
#[derive(Clone, Copy, Debug, PartialEq, Eq, Structural)]
pub enum ScanRequest {
    /// Let the decoder fetch further records and report whether there are any.
    WaitToRead,
    /// Take the next fetched record, if one is left.
    TryReadNext,
    /// Nothing: the scan has finished.
    Finished,
}

/// How far a scan has come.
#[derive(Debug)]
pub enum ScanPhase {
    Waiting,
    Reading,
    /// The accepted records end here, and why if further bytes follow them.
    Finished(Option<LogTailError>),
    /// The decoder failed; the scan has no findings.
    Failed,
}

/// What a scan has accepted and how far it has come.
#[verifier::ext_equal]
pub struct ScanState {
    pub file_id: LogFileId,
    pub last_trusted: Option<RecordEndLocation>,
    /// The whole file's length.
    pub file_length: u64,
    /// The accepted records, in file order.
    pub accepted: Seq<RecordHeader>,
    pub phase: ScanPhase,
}

impl ScanState {
    /// Offset of the first scanned byte.
    pub open spec fn start(self) -> int {
        RecordEndLocation::offset(self.last_trusted)
    }

    pub open spec fn trusted_count(self) -> int {
        RecordEndLocation::count(self.last_trusted)
    }

    /// Number of the file's trusted and accepted records.
    pub open spec fn count(self) -> int {
        self.trusted_count() + self.accepted.len()
    }

    /// Exclusive end of the trusted and accepted records.
    pub open spec fn position(self) -> int {
        self.start() + total_length(self.accepted)
    }

    /// The only record that can follow.
    pub open spec fn expected(self) -> RecordId {
        self.file_id.record_at(self.count())
    }

    /// The last accepted record's end; the trusted end where no record was accepted.
    pub open spec fn validated_end(self) -> Option<RecordEndLocation> {
        if self.accepted.len() == 0 {
            self.last_trusted
        } else {
            Some(
                RecordEndLocation {
                    record_id: self.accepted.last().id,
                    position: LogFilePosition(self.position() as u64),
                },
            )
        }
    }

    /// The accepted records' exclusive ends.
    pub open spec fn suffix_ends(self) -> Seq<u64> {
        ends_after(self.start(), self.accepted)
    }

    /// The accepted records continue the trusted ones without a gap, up to the file's capacity.
    pub open spec fn wf(self) -> bool {
        &&& is_trusted_start(self.file_id, self.last_trusted)
        &&& self.count() <= RECORDS_PER_FILE
        &&& self.file_id.first_sequence() + self.count() <= u64::MAX
        &&& forall|i: int|
            0 <= i < self.accepted.len() ==> {
                &&& (#[trigger] self.accepted[i]).id == self.file_id.record_at(
                    self.trusted_count() + i,
                )
                &&& record::is_record_length(self.accepted[i].length@ as int)
            }
        &&& self.phase is Waiting || self.phase is Reading ==> self.count() < RECORDS_PER_FILE
    }

    pub open spec fn with_phase(self, phase: ScanPhase) -> ScanState {
        ScanState { phase, ..self }
    }

    /// The scan before the next fetch: a full file needs none, and what follows its last record
    /// does not belong to it.
    pub open spec fn before_fetch(self) -> ScanState {
        if self.count() == RECORDS_PER_FILE {
            self.with_phase(
                ScanPhase::Finished(
                    if self.position() < self.file_length {
                        Some(LogTailError::ExtraData)
                    } else {
                        None
                    },
                ),
            )
        } else {
            self.with_phase(ScanPhase::Waiting)
        }
    }

    /// The scan after a fetch.
    pub open spec fn waited(self, reply: Result<bool, RecordReadError>) -> ScanState {
        match reply {
            Ok(true) => self.with_phase(ScanPhase::Reading),
            Ok(false) => self.with_phase(ScanPhase::Finished(None)),
            Err(error) => if error.is_operational() {
                self.with_phase(ScanPhase::Failed)
            } else {
                self.with_phase(ScanPhase::Finished(Some(LogTailError::Record(error))))
            },
        }
    }

    /// The scan after taking a fetched record.
    pub open spec fn read(self, reply: Result<Option<RecordHeader>, RecordReadError>) -> ScanState {
        match reply {
            Ok(None) => self.before_fetch(),
            Ok(Some(record)) => if record.id == self.expected() {
                let accepted = ScanState { accepted: self.accepted.push(record), ..self };
                if accepted.count() == RECORDS_PER_FILE {
                    accepted.before_fetch()
                } else {
                    accepted
                }
            } else {
                self.with_phase(
                    ScanPhase::Finished(
                        Some(
                            LogTailError::UnexpectedRecordId {
                                expected: self.expected(),
                                actual: record.id,
                            },
                        ),
                    ),
                )
            },
            Err(_) => self.with_phase(ScanPhase::Failed),
        }
    }

    /// The request that belongs to the phase.
    pub open spec fn request(self) -> ScanRequest {
        match self.phase {
            ScanPhase::Waiting => ScanRequest::WaitToRead,
            ScanPhase::Reading => ScanRequest::TryReadNext,
            _ => ScanRequest::Finished,
        }
    }

    /// The state at the beginning of a scan.
    pub open spec fn initial(
        file_id: LogFileId,
        last_trusted: Option<RecordEndLocation>,
        file_length: u64,
    ) -> ScanState {
        ScanState {
            file_id,
            last_trusted,
            file_length,
            accepted: Seq::empty(),
            phase: ScanPhase::Waiting,
        }.before_fetch()
    }

    /// The accepted end lies within the extent that its record count allows.
    pub proof fn lemma_extent(self)
        requires
            self.wf(),
        ensures
            record::is_extent_of(self.position(), self.count()),
    {
        lemma_total_length_bounds(self.accepted);
    }
}

/// Records take up their minimal and maximal lengths at least and at most.
pub proof fn lemma_total_length_bounds(records: Seq<RecordHeader>)
    requires
        forall|i: int|
            0 <= i < records.len() ==> record::is_record_length(
                (#[trigger] records[i]).length@ as int,
            ),
    ensures
        record::is_extent_of(total_length(records), records.len() as int),
    decreases records.len(),
{
    if records.len() > 0 {
        lemma_total_length_bounds(records.drop_last());
    }
}

/// Records only lengthen a file.
pub proof fn lemma_total_length_is_nonnegative(records: Seq<RecordHeader>)
    ensures
        total_length(records) >= 0,
    decreases records.len(),
{
    if records.len() > 0 {
        lemma_total_length_is_nonnegative(records.drop_last());
    }
}

/// A further record adds its length and its end.
pub proof fn lemma_ends_after_push(start: int, records: Seq<RecordHeader>, record: RecordHeader)
    ensures
        total_length(records.push(record)) == total_length(records) + record.length@,
        ends_after(start, records.push(record)) == ends_after(start, records).push(
            (start + total_length(records.push(record))) as u64,
        ),
{
    assert(records.push(record).drop_last() =~= records);
    let longer = records.push(record);
    assert forall|i: int| 0 <= i < records.len() implies #[trigger] ends_after(start, longer)[i]
        == ends_after(start, records)[i] by {
        assert(longer.take(i + 1) =~= records.take(i + 1));
    }
    assert(longer.take(longer.len() as int) =~= longer);
    assert(ends_after(start, longer) =~= ends_after(start, records).push(
        (start + total_length(longer)) as u64,
    ));
}

/// Determines how far a log file's records are acceptable.
///
/// The scan begins behind the trusted prefix. It accepts the records of the file's own stream in
/// exact sequence order, up to the number of records that the file can hold, and diagnoses what
/// follows them. A failure of the decoder itself leaves no findings.
pub struct RecordScan {
    file_id: LogFileId,
    last_trusted: Option<RecordEndLocation>,
    file_length: u64,
    count: u64,
    position: u64,
    validated_end: Option<RecordEndLocation>,
    suffix_ends: Vec<u64>,
    expected: RecordId,
    phase: ScanPhase,
    accepted: Ghost<Seq<RecordHeader>>,
}

impl View for RecordScan {
    type V = ScanState;

    closed spec fn view(&self) -> ScanState {
        ScanState {
            file_id: self.file_id,
            last_trusted: self.last_trusted,
            file_length: self.file_length,
            accepted: self.accepted@,
            phase: self.phase,
        }
    }
}

impl RecordScan {
    /// The stored numbers are those of the accepted records.
    pub closed spec fn wf(self) -> bool {
        &&& self@.wf()
        &&& self.count == self@.count()
        &&& self.position == self@.position()
        &&& self.validated_end == self@.validated_end()
        &&& self.suffix_ends@ == self@.suffix_ends()
        &&& self.expected == self@.expected()
    }

    /// Begins a scan behind the trusted prefix.
    ///
    /// A trusted record that is the last possible one of its stream has no successor to scan for.
    pub fn new(
        file_id: LogFileId,
        last_trusted: Option<RecordEndLocation>,
        file_length: u64,
    ) -> (scan: RecordScan)
        requires
            is_trusted_start(file_id, last_trusted),
            last_trusted matches Some(end) ==> end.record_id.has_next(),
        ensures
            scan.wf(),
            scan@.wf(),
            scan@ == ScanState::initial(file_id, last_trusted, file_length),
    {
        let count: u64 = RecordEndLocation::count_of(last_trusted);
        let position: u64 = RecordEndLocation::offset_of(last_trusted);
        let expected = match last_trusted {
            None => file_id.first_record_id(),
            Some(end) => end.record_id().next(),
        };
        proof {
            if let Some(end) = last_trusted {
                LogFileId::count_and_place_are_inverse(file_id, end.record_id);
            }
        }
        let phase = if count == RECORDS_PER_FILE {
            ScanPhase::Finished(
                if position < file_length {
                    Some(LogTailError::ExtraData)
                } else {
                    None
                },
            )
        } else {
            ScanPhase::Waiting
        };
        let scan = RecordScan {
            file_id,
            last_trusted,
            file_length,
            count,
            position,
            validated_end: last_trusted,
            suffix_ends: Vec::new(),
            expected,
            phase,
            accepted: Ghost(Seq::empty()),
        };
        assert(scan.suffix_ends@ =~= scan@.suffix_ends());
        scan
    }

    pub fn request(&self) -> (request: ScanRequest)
        ensures
            request == self@.request(),
    {
        match self.phase {
            ScanPhase::Waiting => ScanRequest::WaitToRead,
            ScanPhase::Reading => ScanRequest::TryReadNext,
            _ => ScanRequest::Finished,
        }
    }

    /// The record that has to come next.
    pub fn expected(&self) -> (expected: RecordId)
        requires
            self.wf(),
        ensures
            expected == self@.expected(),
    {
        self.expected
    }

    /// Takes the outcome of a fetch. A failure of the decoder ends the scan and is handed back.
    pub fn waited(&mut self, reply: Result<bool, RecordReadError>) -> (result: Result<
        ScanRequest,
        RecordReadError,
    >)
        requires
            old(self).wf(),
            old(self)@.phase is Waiting,
        ensures
            final(self).wf(),
            final(self)@.wf(),
            final(self)@ == old(self)@.waited(reply),
            match result {
                Ok(request) => {
                    &&& reply matches Err(error) ==> !error.is_operational()
                    &&& request == final(self)@.request()
                },
                Err(error) => error.is_operational() && reply == Err::<bool, _>(error),
            },
    {
        match reply {
            Ok(available) => {
                self.phase = if available {
                    ScanPhase::Reading
                } else {
                    ScanPhase::Finished(None)
                };
            },
            Err(RecordReadError::Io(error)) => {
                self.phase = ScanPhase::Failed;
                return Err(RecordReadError::Io(error));
            },
            Err(RecordReadError::ReaderFailed { description }) => {
                self.phase = ScanPhase::Failed;
                return Err(RecordReadError::ReaderFailed { description });
            },
            Err(error) => {
                self.phase = ScanPhase::Finished(Some(LogTailError::Record(error)));
            },
        }
        Ok(self.request())
    }

    /// Takes a fetched record, or learns that none is left. A failure ends the scan and is handed
    /// back.
    ///
    /// A record that is the last possible one of its stream cannot be accepted: it has no
    /// successor.
    pub fn read(&mut self, reply: Result<Option<RecordHeader>, RecordReadError>) -> (result: Result<
        ScanRequest,
        RecordReadError,
    >)
        requires
            old(self).wf(),
            old(self)@.phase is Reading,
            reply matches Ok(Some(record)) ==> record.id == old(self)@.expected()
                ==> record.id.has_next(),
        ensures
            final(self).wf(),
            final(self)@.wf(),
            final(self)@ == old(self)@.read(reply),
            match result {
                Ok(request) => reply is Ok && request == final(self)@.request(),
                Err(error) => reply == Err::<Option<RecordHeader>, _>(error),
            },
    {
        match reply {
            Ok(None) => {
                self.phase = ScanPhase::Waiting;
            },
            Ok(Some(record)) => {
                if record.id != self.expected {
                    self.phase = ScanPhase::Finished(
                        Some(
                            LogTailError::UnexpectedRecordId {
                                expected: self.expected,
                                actual: record.id,
                            },
                        ),
                    );
                } else {
                    self.accept(record);
                }
            },
            Err(error) => {
                self.phase = ScanPhase::Failed;
                return Err(error);
            },
        }
        Ok(self.request())
    }

    fn accept(&mut self, record: RecordHeader)
        requires
            old(self).wf(),
            old(self)@.phase is Reading,
            record.id == old(self)@.expected(),
            record.id.has_next(),
        ensures
            final(self).wf(),
            final(self)@ == old(self)@.read(Ok(Some(record))),
    {
        let length: u64 = record.length.get();
        proof {
            self@.lemma_extent();
            lemma_ends_after_push(self@.start(), self@.accepted, record);
        }
        self.position = self.position + length;
        self.validated_end = Some(
            RecordEndLocation::new(record.id, LogFilePosition::new(self.position)),
        );
        self.suffix_ends.push(self.position);
        self.count = self.count + 1;
        self.expected = self.expected.next();
        proof {
            self.accepted@ = self.accepted@.push(record);
        }
        if self.count == RECORDS_PER_FILE {
            self.phase = ScanPhase::Finished(
                if self.position < self.file_length {
                    Some(LogTailError::ExtraData)
                } else {
                    None
                },
            );
        }
    }
}

impl RecordScan {
    /// The complete findings of a finished scan.
    pub fn finish(self) -> (result: LogScanResult)
        requires
            self.wf(),
            self@.phase is Finished,
        ensures
            result.wf(),
            result@ == self@,
    {
        let ghost scanned = self@;
        let tail_error = match self.phase {
            ScanPhase::Finished(tail_error) => tail_error,
            _ => None,
        };
        LogScanResult {
            validated_end: self.validated_end,
            suffix_ends: self.suffix_ends,
            tail_error,
            scanned: Ghost(scanned),
        }
    }
}

/// The findings of a finished scan, before anything was done to the file.
pub struct LogScanResult {
    validated_end: Option<RecordEndLocation>,
    suffix_ends: Vec<u64>,
    tail_error: Option<LogTailError>,
    scanned: Ghost<ScanState>,
}

impl View for LogScanResult {
    type V = ScanState;

    closed spec fn view(&self) -> ScanState {
        self.scanned@
    }
}

impl LogScanResult {
    /// The stored findings are those of a finished scan.
    pub closed spec fn wf(self) -> bool {
        &&& self@.wf()
        &&& self@.phase == ScanPhase::Finished(self.tail_error)
        &&& self.validated_end == self@.validated_end()
        &&& self.suffix_ends@ == self@.suffix_ends()
    }

    /// What [`wf`](Self::wf) says of the scan.
    pub proof fn lemma_wf(self)
        requires
            self.wf(),
        ensures
            self@.wf(),
            self@.phase is Finished,
    {
    }

    /// The last accepted record's end; the trusted end where no record was accepted.
    pub fn validated_end(&self) -> (end: Option<RecordEndLocation>)
        requires
            self.wf(),
        ensures
            end == self@.validated_end(),
    {
        self.validated_end
    }

    /// The newly accepted records' exclusive ends.
    pub fn suffix_ends(&self) -> (ends: &[u64])
        requires
            self.wf(),
        ensures
            ends@ == self@.suffix_ends(),
    {
        self.suffix_ends.as_slice()
    }

    /// Why the accepted records end before the file does, if they do.
    pub fn tail_error(&self) -> (error: &Option<LogTailError>)
        requires
            self.wf(),
        ensures
            self@.phase == ScanPhase::Finished(*error),
    {
        &self.tail_error
    }
}

} // verus!
