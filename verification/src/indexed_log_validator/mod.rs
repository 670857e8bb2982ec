//! Validation of a log and its index with explicit repairs.
pub mod completed_indexed_log;
pub mod handover;
pub mod handover_laws;
pub mod indexed_log_validator;
pub mod laws;
pub mod log_validation_error;
pub mod log_validation_report;
pub mod suffix_scan;
pub mod suffix_scan_laws;
pub mod validation_laws;
pub mod validator_state;

pub use crate::validation::LogTailError;
pub use completed_indexed_log::CompletedIndexedLog;
pub use handover::{CompletedHandover, WriterHandover};
pub use indexed_log_validator::{IndexedLogValidator, PairOpening};
pub use log_validation_error::LogValidationError;
pub use log_validation_report::LogValidationReport;
pub use suffix_scan::{SuffixFindings, SuffixScan};
