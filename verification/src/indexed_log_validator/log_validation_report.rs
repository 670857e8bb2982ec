use vstd::prelude::*;

use crate::index_entry::INDEX_ENTRY_LEN;
use crate::location::{LogFileId, RecordEndLocation, RECORDS_PER_FILE};
use crate::validation::LogTailError;

verus! {

/// The findings of a completed validation.
#[verifier::ext_equal]
pub struct ReportView {
    pub file_id: LogFileId,
    pub end: Option<RecordEndLocation>,
    pub record_count: u64,
    pub log_length: u64,
    pub index_length: u64,
    pub matching_index_entries: u64,
    pub tail_error: Option<LogTailError>,
}

impl ReportView {
    /// Whether the index has to be changed to hold exactly one right entry per record.
    pub open spec fn needs_index_repair(self) -> bool {
        ||| self.matching_index_entries != self.record_count
        ||| self.index_length != self.record_count * INDEX_ENTRY_LEN
    }
}

/// The findings of a completed validation, before any repair.
///
/// The accepted records begin with the trusted ones. Later repairs do not change the report.
#[derive(Debug)]
pub struct LogValidationReport {
    file_id: LogFileId,
    end: Option<RecordEndLocation>,
    record_count: u64,
    log_length: u64,
    index_length: u64,
    matching_index_entries: u64,
    tail_error: Option<LogTailError>,
}

impl View for LogValidationReport {
    type V = ReportView;

    closed spec fn view(&self) -> ReportView {
        ReportView {
            file_id: self.file_id,
            end: self.end,
            record_count: self.record_count,
            log_length: self.log_length,
            index_length: self.index_length,
            matching_index_entries: self.matching_index_entries,
            tail_error: self.tail_error,
        }
    }
}

impl LogValidationReport {
    #[verifier::type_invariant]
    spec fn fits_a_file(self) -> bool {
        self.record_count <= RECORDS_PER_FILE
    }

    pub(crate) fn new(
        file_id: LogFileId,
        end: Option<RecordEndLocation>,
        record_count: u64,
        log_length: u64,
        index_length: u64,
        matching_index_entries: u64,
        tail_error: Option<LogTailError>,
    ) -> (report: LogValidationReport)
        requires
            record_count <= RECORDS_PER_FILE,
        ensures
            report@ == (ReportView {
                file_id,
                end,
                record_count,
                log_length,
                index_length,
                matching_index_entries,
                tail_error,
            }),
    {
        LogValidationReport {
            file_id,
            end,
            record_count,
            log_length,
            index_length,
            matching_index_entries,
            tail_error,
        }
    }

    /// The inspected file.
    pub fn file_id(&self) -> (file_id: LogFileId)
        ensures
            file_id == self@.file_id,
    {
        self.file_id
    }

    /// The last accepted record's end; none where no record is accepted.
    pub fn end(&self) -> (end: Option<RecordEndLocation>)
        ensures
            end == self@.end,
    {
        self.end
    }

    /// Number of accepted records.
    pub fn record_count(&self) -> (count: u64)
        ensures
            count == self@.record_count,
    {
        self.record_count
    }

    /// The log's length before the scan.
    pub fn log_length(&self) -> (length: u64)
        ensures
            length == self@.log_length,
    {
        self.log_length
    }

    /// The index's length before the scan.
    pub fn index_length(&self) -> (length: u64)
        ensures
            length == self@.index_length,
    {
        self.index_length
    }

    /// Number of trusted entries and of right entries that directly follow them.
    pub fn matching_index_entries(&self) -> (count: u64)
        ensures
            count == self@.matching_index_entries,
    {
        self.matching_index_entries
    }

    /// What is wrong behind the accepted records, if anything follows them.
    pub fn tail_error(&self) -> (error: &Option<LogTailError>)
        ensures
            *error == self@.tail_error,
    {
        &self.tail_error
    }

    /// The exclusive end of the accepted records; zero without any.
    pub fn valid_log_length(&self) -> (length: u64)
        ensures
            length == RecordEndLocation::offset(self@.end),
    {
        RecordEndLocation::offset_of(self.end)
    }

    /// Whether every record position of the file is occupied.
    pub fn is_full(&self) -> (full: bool)
        ensures
            full == (self@.record_count == RECORDS_PER_FILE),
    {
        self.record_count == RECORDS_PER_FILE
    }

    /// Whether the index has to be changed to hold exactly one right entry per record.
    pub fn needs_index_repair(&self) -> (needed: bool)
        ensures
            needed == self@.needs_index_repair(),
    {
        proof {
            use_type_invariant(self);
        }
        self.matching_index_entries != self.record_count || self.index_length != self.record_count
            * INDEX_ENTRY_LEN
    }
}

} // verus!
