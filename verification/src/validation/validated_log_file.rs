use vstd::prelude::*;

use crate::location::RecordEndLocation;
use crate::validation::record_scan::{LogScanResult, ScanPhase, ScanState};
use crate::validation::LogTailError;

verus! {

/// A log file whose records were checked, whose bad tail was removed, and which was synchronized.
///
/// Only a finished recovery constructs this. The index has not been looked at.
pub struct ValidatedLogFile<F> {
    file: F,
    findings: LogScanResult,
}

impl<F> View for ValidatedLogFile<F> {
    type V = ScanState;

    /// The finished scan.
    closed spec fn view(&self) -> ScanState {
        self.findings@
    }
}

impl<F> ValidatedLogFile<F> {
    pub closed spec fn spec_file(self) -> F {
        self.file
    }

    pub closed spec fn wf(self) -> bool {
        self.findings.wf()
    }

    /// What [`wf`](Self::wf) says of the scan.
    pub proof fn lemma_wf(self)
        requires
            self.wf(),
        ensures
            self@.wf(),
            self@.phase is Finished,
    {
        self.findings.lemma_wf();
    }

    pub(crate) fn new(file: F, findings: LogScanResult) -> (validated: ValidatedLogFile<F>)
        requires
            findings.wf(),
        ensures
            validated.wf(),
            validated@ == findings@,
            validated.spec_file() == file,
    {
        ValidatedLogFile { file, findings }
    }

    /// The file, for operations that leave its contents alone.
    pub(crate) fn file(&mut self) -> (file: &mut F)
        ensures
            *file == old(self).spec_file(),
            final(self)@ == old(self)@,
            old(self).wf() ==> final(self).wf(),
            final(self).spec_file() == *final(file),
    {
        &mut self.file
    }

    /// The last accepted record's end, trusted records counted; none for an empty log.
    pub fn validated_end(&self) -> (end: Option<RecordEndLocation>)
        requires
            self.wf(),
        ensures
            end == self@.validated_end(),
    {
        self.findings.validated_end()
    }

    /// The newly accepted records' exclusive ends.
    pub fn suffix_ends(&self) -> (ends: &[u64])
        requires
            self.wf(),
        ensures
            ends@ == self@.suffix_ends(),
    {
        self.findings.suffix_ends()
    }

    /// What was wrong with the removed tail; none for a clean log.
    pub fn removed_tail(&self) -> (error: &Option<LogTailError>)
        requires
            self.wf(),
        ensures
            self@.phase == ScanPhase::Finished(*error),
    {
        self.findings.tail_error()
    }

    /// Gives the file back. Its cursor may be anywhere.
    pub fn into_inner(self) -> (file: F)
        ensures
            file == self.spec_file(),
    {
        self.file
    }
}

} // verus!
