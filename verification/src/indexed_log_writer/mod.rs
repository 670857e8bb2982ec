//! Ordered appends to a log and its index.
pub mod append_outcome;
pub mod indexed_log_write_error;
pub mod indexed_log_writer;
pub mod laws;
pub mod output_laws;
pub mod writer_state;

pub use append_outcome::AppendOutcome;
pub use indexed_log_write_error::IndexedLogWriteError;
pub use indexed_log_writer::IndexedLogWriter;
pub use writer_state::{PairOutput, WriterPhase};
