//! Where records live: log files, byte positions and record boundaries.
pub mod log_file_id;
pub mod log_file_id_range_error;
pub mod log_file_number;
pub mod log_file_number_error;
pub mod log_file_position;
pub mod log_file_range;
pub mod log_file_record_index_error;
pub mod record_end_location;
pub mod record_range_location_error;
pub mod record_start_location;

pub use log_file_id::{LogFileId, LogFileIds};
pub use log_file_id_range_error::LogFileIdRangeError;
pub use log_file_number::{LogFileNumber, MAX_LOG_FILE_NUMBER, RECORDS_PER_FILE};
pub use log_file_number_error::LogFileNumberError;
pub use log_file_position::LogFilePosition;
pub use log_file_range::LogFileRange;
pub use log_file_record_index_error::LogFileRecordIndexError;
pub use record_end_location::RecordEndLocation;
pub use record_range_location_error::RecordRangeLocationError;
pub use record_start_location::RecordStartLocation;
