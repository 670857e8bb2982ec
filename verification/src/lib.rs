//! The files of a transaction log: appending records to a log and its index, and recovering both.
//!
//! A stream of records is kept in numbered log files, each with a dense index of the records'
//! ends. This library decides what to read, write, flush, synchronize and cut off, and in which
//! order; the owner of the files performs the requested operations and reports what came of them.
//! What the files then hold is stated and proved in the `laws` modules and in [`reopening`].
pub mod file;
pub mod index_entry;
pub mod index_writer;
pub mod indexed_log_validator;
pub mod indexed_log_writer;
pub mod io_error;
pub mod location;
pub mod output;
pub mod record;
pub mod reopening;
pub mod storage;
pub mod stream_checkpoint;
pub mod stream_initializer;
pub mod text;
pub mod validation;
