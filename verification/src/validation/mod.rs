//! Recovery of one log file and its paired index at startup.
pub mod index_file_laws;
pub mod index_file_validation_error;
pub mod index_file_validator;
pub mod indexed_log_laws;
pub mod indexed_log_validation_error;
pub mod indexed_log_validator;
pub mod log_file_laws;
pub mod log_file_validation_error;
pub mod log_file_validator;
pub mod log_tail_error;
pub mod record_scan;
pub mod record_scan_laws;
pub mod validated_file_pair;
pub mod validated_log_file;

pub use index_file_validation_error::IndexFileValidationError;
pub use index_file_validator::{IndexFileValidator, IndexRecovery};
pub use indexed_log_validation_error::IndexedLogValidationError;
pub use indexed_log_validator::{IndexedLogValidator, PairRecovery, PairRequest};
pub use log_file_validation_error::LogFileValidationError;
pub use log_file_validator::{LogFileValidator, LogRecovery, LogRequest};
pub use log_tail_error::LogTailError;
pub use record_scan::{LogScanResult, RecordScan, ScanRequest};
pub use validated_file_pair::ValidatedFilePair;
pub use validated_log_file::ValidatedLogFile;
