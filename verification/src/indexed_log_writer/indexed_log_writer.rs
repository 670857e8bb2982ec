use vstd::prelude::*;

use crate::index_writer::IndexWriter;
use crate::indexed_log_writer::writer_state::{PairOutputResult, WriterState};
use crate::indexed_log_writer::{AppendOutcome, IndexedLogWriteError, PairOutput, WriterPhase};
use crate::io_error::IoError;
use crate::location::{LogFileId, RecordEndLocation, RecordStartLocation, RECORDS_PER_FILE};
use crate::output::{OutputBatch, OutputState};
use crate::record::{Record, RecordId, RecordOutputError};
use crate::stream_initializer::InitializedStream;
use crate::validation::validated_file_pair;

verus! {

/// Appends ordered records and their dense index to one owned pair of destinations.
///
/// `L` receives unchanged record encodings and `I` one index entry per record. Both are already
/// open and positioned. [`write_record`](Self::write_record) only buffers.
/// [`flush`](Self::flush) and [`sync_data`](Self::sync_data) hand out requests that the owner
/// performs on [`log_destination`](Self::log_destination) or
/// [`index_destination`](Self::index_destination) and answers through [`resume`](Self::resume).
///
/// Until an output operation has completed successfully every other operation is refused, and
/// failed output makes the whole pair unusable.
pub struct IndexedLogWriter<L, I> {
    file_id: LogFileId,
    expected_record_id: RecordId,
    record_count: u64,
    buffered_end: Option<RecordEndLocation>,
    flushed_end: Option<RecordEndLocation>,
    synced_end: Option<RecordEndLocation>,
    log: L,
    log_batch: OutputBatch,
    index: IndexWriter<I>,
    phase: WriterPhase,
}

impl<L, I> View for IndexedLogWriter<L, I> {
    type V = WriterState;

    closed spec fn view(&self) -> WriterState {
        WriterState {
            file_id: self.file_id,
            expected: self.expected_record_id,
            count: self.record_count as int,
            buffered: self.buffered_end,
            flushed: self.flushed_end,
            synced: self.synced_end,
            log: self.log_batch@,
            index: self.index@,
            phase: self.phase,
        }
    }
}

impl<L, I> IndexedLogWriter<L, I> {
    pub closed spec fn spec_log(self) -> L {
        self.log
    }

    pub closed spec fn spec_index(self) -> I {
        self.index.spec_file()
    }

    /// Takes over an empty pair for the given file.
    pub fn new(file_id: LogFileId, log: L, index: I) -> (writer: IndexedLogWriter<L, I>)
        ensures
            writer@ == WriterState::initial(file_id, None, None),
            writer@.wf(),
            writer.spec_log() == log,
            writer.spec_index() == index,
    {
        IndexedLogWriter::from_validated(file_id, log, index, None, None)
    }

    /// Takes over a pair that holds the records up to `end`, of which those up to `synced` are
    /// known to be durable.
    pub(crate) fn from_validated(
        file_id: LogFileId,
        log: L,
        index: I,
        end: Option<RecordEndLocation>,
        synced: Option<RecordEndLocation>,
    ) -> (writer: IndexedLogWriter<L, I>)
        requires
            validated_file_pair::is_file_end(file_id, end),
            synced is None || synced == end,
            end matches Some(end) ==> end.record_id.has_next(),
        ensures
            writer@ == WriterState::initial(file_id, end, synced),
            writer@.wf(),
            writer.spec_log() == log,
            writer.spec_index() == index,
    {
        let expected_record_id = match end {
            None => file_id.first_record_id(),
            Some(end) => end.record_id().next(),
        };
        proof {
            if let Some(end) = end {
                LogFileId::count_and_place_are_inverse(file_id, end.record_id);
            }
        }
        IndexedLogWriter {
            file_id,
            expected_record_id,
            record_count: RecordEndLocation::count_of(end),
            buffered_end: end,
            flushed_end: end,
            synced_end: synced,
            log,
            log_batch: OutputBatch::new(),
            index: IndexWriter::new(index),
            phase: WriterPhase::Open,
        }
    }

    /// The file whose stream and sequence range govern every append.
    pub fn file_id(&self) -> (file_id: LogFileId)
        ensures
            file_id == self@.file_id,
    {
        self.file_id
    }

    /// The only record that the next append accepts.
    pub fn expected_record_id(&self) -> (expected: RecordId)
        ensures
            expected == self@.expected,
    {
        self.expected_record_id
    }

    /// Number of the file's records, accepted ones counted.
    pub fn record_count(&self) -> (count: u64)
        ensures
            count == self@.count,
    {
        self.record_count
    }

    /// The last accepted record's end.
    pub fn buffered_end(&self) -> (end: Option<RecordEndLocation>)
        ensures
            end == self@.buffered,
    {
        self.buffered_end
    }

    /// The end of the last record whose bytes and index entry were flushed.
    pub fn flushed_end(&self) -> (end: Option<RecordEndLocation>)
        ensures
            end == self@.flushed,
    {
        self.flushed_end
    }

    /// The end of the last record that a synchronization of both destinations covered.
    pub fn synced_end(&self) -> (end: Option<RecordEndLocation>)
        ensures
            end == self@.synced,
    {
        self.synced_end
    }

    /// Whether every record position of the file is occupied, be it only in the batches.
    pub fn is_full(&self) -> (full: bool)
        ensures
            full == (self@.count == RECORDS_PER_FILE),
    {
        self.record_count == RECORDS_PER_FILE
    }

    /// Why every operation is refused, if it is.
    pub fn check_open(&self) -> (result: Result<(), IndexedLogWriteError>)
        ensures
            match result {
                Ok(_) => self@.phase == WriterPhase::Open,
                Err(error) => self@.refusal() == Some(error),
            },
    {
        match self.phase {
            WriterPhase::Open => Ok(()),
            WriterPhase::Finalized => Err(IndexedLogWriteError::Finalized),
            _ => Err(IndexedLogWriteError::Unusable),
        }
    }

    /// Buffers a record and its index entry.
    ///
    /// Identity and capacity are checked before either batch changes. The stream's last possible
    /// record cannot be appended: it has no successor to expect.
    pub fn write_record(&mut self, record: &Record) -> (result: Result<
        AppendOutcome,
        IndexedLogWriteError,
    >)
        requires
            old(self)@.wf(),
            old(self)@.accepts(record.spec_id()) ==> record.spec_id().has_next(),
        ensures
            final(self)@.wf(),
            final(self).spec_log() == old(self).spec_log(),
            final(self).spec_index() == old(self).spec_index(),
            old(self)@.appended(record.spec_id(), record.spec_bytes(), final(self)@, result),
    {
        if let Err(error) = self.check_open() {
            return Err(error);
        }
        if self.is_full() {
            return Err(IndexedLogWriteError::Full);
        }
        let expected = self.expected_record_id;
        let actual = record.id();
        if actual != expected {
            return Err(IndexedLogWriteError::UnexpectedRecordId { expected, actual });
        }
        proof {
            self.file_id.a_place_has_its_record(self@.count);
            if let Some(end) = self.buffered_end {
                LogFileId::count_and_place_are_inverse(self.file_id, end.record_id);
            }
        }
        let bytes = record.as_bytes();
        let start = match self.buffered_end {
            Some(end) => end.next_record_start(),
            None => RecordStartLocation::new(self.file_id.first_record_id(), 0),
        };
        let end = start.to_end(record.length());
        let next_expected_record_id = expected.next();
        self.phase = WriterPhase::Unusable;
        if let Err(error) = RecordOutputError::append(self.log_batch.append(bytes)) {
            return Err(IndexedLogWriteError::Log(error));
        }
        if let Err(error) = self.index.write(end.position().get()) {
            return Err(IndexedLogWriteError::Index(error));
        }
        self.record_count = self.record_count + 1;
        self.buffered_end = Some(end);
        self.expected_record_id = next_expected_record_id;
        self.phase = WriterPhase::Open;
        proof {
            vstd::bytes::lemma_auto_spec_u64_to_from_le_bytes();
        }
        Ok(AppendOutcome::new(end, self.is_full()))
    }

    /// Ends appending to a full and synchronized pair and gives the file's last end.
    pub fn finalize(&mut self) -> (result: Result<RecordEndLocation, IndexedLogWriteError>)
        requires
            old(self)@.wf(),
        ensures
            final(self)@.wf(),
            final(self).spec_log() == old(self).spec_log(),
            final(self).spec_index() == old(self).spec_index(),
            old(self)@.finalized(final(self)@, result),
    {
        if let Err(error) = self.check_open() {
            return Err(error);
        }
        if !self.is_full() {
            return Err(IndexedLogWriteError::NotFull { record_count: self.record_count });
        }
        if self.synced_end != self.buffered_end {
            return Err(IndexedLogWriteError::NotSynchronized);
        }
        let end = self.buffered_end.unwrap();
        self.phase = WriterPhase::Finalized;
        Ok(end)
    }

    /// Gives both destinations back and drops what was not sent.
    pub fn into_inner(self) -> (destinations: (L, I))
        ensures
            destinations == (self.spec_log(), self.spec_index()),
    {
        (self.log, self.index.into_inner())
    }

    /// The log to perform a request on, and the bytes that a write offers.
    pub fn log_destination(&mut self) -> (parts: (&mut L, &[u8]))
        requires
            old(self)@.wf(),
        ensures
            *parts.0 == old(self).spec_log(),
            parts.1@ == old(self)@.log.unsent(),
            final(self)@ == old(self)@,
            final(self).spec_log() == *final(parts.0),
            final(self).spec_index() == old(self).spec_index(),
    {
        (&mut self.log, self.log_batch.unsent())
    }

    /// The index to perform a request on, and the bytes that a write offers.
    pub fn index_destination(&mut self) -> (parts: (&mut I, &[u8]))
        requires
            old(self)@.wf(),
        ensures
            *parts.0 == old(self).spec_index(),
            parts.1@ == old(self)@.index.unsent(),
            final(self)@ == old(self)@,
            final(self).spec_log() == old(self).spec_log(),
            final(self).spec_index() == *final(parts.0),
    {
        self.index.destination()
    }

    /// Begins to flush the log's batch and then the index's. Without unflushed records there is
    /// nothing to do.
    pub fn flush(&mut self) -> (result: PairOutputResult)
        requires
            old(self)@.wf(),
        ensures
            final(self)@.wf(),
            final(self).spec_log() == old(self).spec_log(),
            final(self).spec_index() == old(self).spec_index(),
            old(self)@.began_flush(final(self)@, result),
    {
        if let Err(error) = self.check_open() {
            return Err(error);
        }
        if self.buffered_end == self.flushed_end {
            return Ok(None);
        }
        self.send_log(false)
    }

    /// Begins to flush what was not flushed and then to make the log and the index durable.
    pub fn sync_data(&mut self) -> (result: PairOutputResult)
        requires
            old(self)@.wf(),
        ensures
            final(self)@.wf(),
            final(self).spec_log() == old(self).spec_log(),
            final(self).spec_index() == old(self).spec_index(),
            old(self)@.began_sync(final(self)@, result),
    {
        if let Err(error) = self.check_open() {
            return Err(error);
        }
        if self.buffered_end == self.flushed_end {
            return self.sync_log();
        }
        self.send_log(true)
    }

    fn send_log(&mut self, synchronize: bool) -> (result: PairOutputResult)
        requires
            old(self)@.wf(),
            old(self)@.phase == WriterPhase::Open,
            old(self)@.buffered != old(self)@.flushed,
        ensures
            final(self)@.wf(),
            final(self).spec_log() == old(self).spec_log(),
            final(self).spec_index() == old(self).spec_index(),
            final(self)@ == old(self)@.sending_log(synchronize),
            result == PairOutputResult::Ok(Some(PairOutput::WriteLog)),
    {
        proof {
            self@.lemma_unflushed();
        }
        self.phase = WriterPhase::SendingLog { synchronize };
        match RecordOutputError::report(self.log_batch.send()) {
            Ok(_) => Ok(Some(PairOutput::WriteLog)),
            Err(error) => {
                self.phase = WriterPhase::Unusable;
                Err(IndexedLogWriteError::Log(error))
            },
        }
    }

    fn sync_log(&mut self) -> (result: PairOutputResult)
        requires
            old(self)@.wf(),
            old(self)@.phase == WriterPhase::Open,
            old(self)@.buffered == old(self)@.flushed,
        ensures
            final(self)@.wf(),
            final(self).spec_log() == old(self).spec_log(),
            final(self).spec_index() == old(self).spec_index(),
            final(self)@ == old(self)@.syncing_log(),
            result == PairOutputResult::Ok(Some(PairOutput::SyncLog)),
    {
        self.phase = WriterPhase::SyncingLog;
        match RecordOutputError::report(self.log_batch.sync_data()) {
            Ok(_) => {
                assert(self@.index =~= OutputState::empty());
                Ok(Some(PairOutput::SyncLog))
            },
            Err(error) => {
                self.phase = WriterPhase::Unusable;
                Err(IndexedLogWriteError::Log(error))
            },
        }
    }

    /// Takes the outcome of the last request and gives the next one, or none when the operation
    /// has completed.
    ///
    /// A write's outcome is the number of accepted bytes; the number that comes with a successful
    /// flush or synchronization means nothing.
    pub fn resume(&mut self, reply: Result<usize, IoError>) -> (result: PairOutputResult)
        requires
            old(self)@.wf(),
            old(self)@.awaits_reply(),
            old(self)@.offered(reply),
        ensures
            final(self)@.wf(),
            final(self).spec_log() == old(self).spec_log(),
            final(self).spec_index() == old(self).spec_index(),
            old(self)@.resumed(reply, final(self)@, result),
    {
        match self.phase {
            WriterPhase::SendingLog { synchronize } => self.resume_sending_log(reply, synchronize),
            WriterPhase::FlushingLog { synchronize } => self.resume_flushing_log(reply, synchronize),
            WriterPhase::SendingIndex { synchronize } => self.resume_sending_index(
                reply,
                synchronize,
            ),
            WriterPhase::FlushingIndex { synchronize } => self.resume_flushing_index(
                reply,
                synchronize,
            ),
            WriterPhase::SyncingLog => self.resume_syncing_log(reply),
            _ => self.resume_syncing_index(reply),
        }
    }

    fn fail_log(&mut self, error: RecordOutputError) -> (result: PairOutputResult)
        ensures
            final(self).spec_log() == old(self).spec_log(),
            final(self).spec_index() == old(self).spec_index(),
            final(self)@ == (WriterState { phase: WriterPhase::Unusable, ..old(self)@ }),
            result == PairOutputResult::Err(IndexedLogWriteError::Log(error)),
    {
        self.phase = WriterPhase::Unusable;
        Err(IndexedLogWriteError::Log(error))
    }

    fn resume_sending_log(&mut self, reply: Result<usize, IoError>, synchronize: bool) -> (result:
        PairOutputResult)
        requires
            old(self)@.wf(),
            old(self)@.phase == (WriterPhase::SendingLog { synchronize }),
            old(self)@.offered(reply),
        ensures
            final(self)@.wf(),
            final(self).spec_log() == old(self).spec_log(),
            final(self).spec_index() == old(self).spec_index(),
            old(self)@.resumed(reply, final(self)@, result),
    {
        match RecordOutputError::report(self.log_batch.resume(reply)) {
            Ok(Some(_)) => Ok(Some(PairOutput::WriteLog)),
            Ok(None) => {
                match RecordOutputError::report(self.log_batch.flush()) {
                    Ok(_) => {
                        self.phase = WriterPhase::FlushingLog { synchronize };
                        Ok(Some(PairOutput::FlushLog))
                    },
                    Err(error) => self.fail_log(error),
                }
            },
            Err(error) => self.fail_log(error),
        }
    }

    fn resume_flushing_log(&mut self, reply: Result<usize, IoError>, synchronize: bool) -> (result:
        PairOutputResult)
        requires
            old(self)@.wf(),
            old(self)@.phase == (WriterPhase::FlushingLog { synchronize }),
        ensures
            final(self)@.wf(),
            final(self).spec_log() == old(self).spec_log(),
            final(self).spec_index() == old(self).spec_index(),
            old(self)@.resumed(reply, final(self)@, result),
    {
        if let Err(error) = RecordOutputError::report(self.log_batch.resume(reply)) {
            return self.fail_log(error);
        }
        assert(self.log_batch@ =~= OutputState::empty());
        match self.index.flush_buffer() {
            Ok(_) => {
                self.phase = WriterPhase::SendingIndex { synchronize };
                Ok(Some(PairOutput::WriteIndex))
            },
            Err(error) => {
                self.phase = WriterPhase::Unusable;
                Err(IndexedLogWriteError::Index(error))
            },
        }
    }

    fn resume_sending_index(&mut self, reply: Result<usize, IoError>, synchronize: bool) -> (result:
        PairOutputResult)
        requires
            old(self)@.wf(),
            old(self)@.phase == (WriterPhase::SendingIndex { synchronize }),
            old(self)@.offered(reply),
        ensures
            final(self)@.wf(),
            final(self).spec_log() == old(self).spec_log(),
            final(self).spec_index() == old(self).spec_index(),
            old(self)@.resumed(reply, final(self)@, result),
    {
        match self.index.resume(reply) {
            Ok(Some(_)) => Ok(Some(PairOutput::WriteIndex)),
            Ok(None) => {
                match self.index.flush() {
                    Ok(_) => {
                        self.phase = WriterPhase::FlushingIndex { synchronize };
                        Ok(Some(PairOutput::FlushIndex))
                    },
                    Err(error) => {
                        self.phase = WriterPhase::Unusable;
                        Err(IndexedLogWriteError::Index(error))
                    },
                }
            },
            Err(error) => {
                self.phase = WriterPhase::Unusable;
                Err(IndexedLogWriteError::Index(error))
            },
        }
    }

    fn resume_flushing_index(&mut self, reply: Result<usize, IoError>, synchronize: bool) -> (result:
        PairOutputResult)
        requires
            old(self)@.wf(),
            old(self)@.phase == (WriterPhase::FlushingIndex { synchronize }),
        ensures
            final(self)@.wf(),
            final(self).spec_log() == old(self).spec_log(),
            final(self).spec_index() == old(self).spec_index(),
            old(self)@.resumed(reply, final(self)@, result),
    {
        if let Err(error) = self.index.resume(reply) {
            self.phase = WriterPhase::Unusable;
            return Err(IndexedLogWriteError::Index(error));
        }
        self.flushed_end = self.buffered_end;
        self.phase = WriterPhase::Open;
        if synchronize {
            self.sync_log()
        } else {
            Ok(None)
        }
    }

    fn resume_syncing_log(&mut self, reply: Result<usize, IoError>) -> (result: PairOutputResult)
        requires
            old(self)@.wf(),
            old(self)@.phase == WriterPhase::SyncingLog,
        ensures
            final(self)@.wf(),
            final(self).spec_log() == old(self).spec_log(),
            final(self).spec_index() == old(self).spec_index(),
            old(self)@.resumed(reply, final(self)@, result),
    {
        if let Err(error) = RecordOutputError::report(self.log_batch.resume(reply)) {
            return self.fail_log(error);
        }
        assert(self.log_batch@ =~= OutputState::empty());
        match self.index.sync_data() {
            Ok(_) => {
                self.phase = WriterPhase::SyncingIndex;
                Ok(Some(PairOutput::SyncIndex))
            },
            Err(error) => {
                self.phase = WriterPhase::Unusable;
                Err(IndexedLogWriteError::Index(error))
            },
        }
    }

    fn resume_syncing_index(&mut self, reply: Result<usize, IoError>) -> (result: PairOutputResult)
        requires
            old(self)@.wf(),
            old(self)@.phase == WriterPhase::SyncingIndex,
        ensures
            final(self)@.wf(),
            final(self).spec_log() == old(self).spec_log(),
            final(self).spec_index() == old(self).spec_index(),
            old(self)@.resumed(reply, final(self)@, result),
    {
        if let Err(error) = self.index.resume(reply) {
            self.phase = WriterPhase::Unusable;
            return Err(IndexedLogWriteError::Index(error));
        }
        self.synced_end = self.flushed_end;
        self.phase = WriterPhase::Open;
        Ok(None)
    }
}

impl<F> From<InitializedStream<F>> for IndexedLogWriter<F, F> {
    /// Takes over an initialized pair. Its records are durable, so all three ends begin at its end.
    fn from(initialized: InitializedStream<F>) -> (writer: IndexedLogWriter<F, F>)
        ensures
            writer@ == WriterState::initial(
                initialized.spec_file_id(),
                initialized.spec_end(),
                initialized.spec_end(),
            ),
            writer@.wf(),
            writer.spec_log() == initialized.spec_log(),
            writer.spec_index() == initialized.spec_index(),
    {
        let (file_id, log, index, end) = initialized.into_parts();
        proof {
            if let Some(end) = end {
                LogFileId::count_and_place_are_inverse(file_id, end.record_id);
            }
        }
        IndexedLogWriter::from_validated(file_id, log, index, end, end)
    }
}

impl<F> vstd::std_specs::convert::FromSpecImpl<InitializedStream<F>> for IndexedLogWriter<F, F> {
    open spec fn obeys_from_spec() -> bool {
        false
    }

    open spec fn from_spec(initialized: InitializedStream<F>) -> IndexedLogWriter<F, F> {
        arbitrary()
    }
}

} // verus!
