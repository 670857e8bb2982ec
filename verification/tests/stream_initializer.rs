use std::cell::RefCell;
use std::collections::VecDeque;
use std::ops::Range;
use std::rc::Rc;

use transaction_log::file::{FileReply, FileRequest};
use transaction_log::indexed_log_writer::writer_state::PairOutputResult;
use transaction_log::indexed_log_writer::{IndexedLogWriteError, IndexedLogWriter, PairOutput};
use transaction_log::io_error::{IoError, IoErrorKind};
use transaction_log::location::{
    LogFileId, LogFileIdRangeError, LogFileNumber, LogFilePosition, RecordEndLocation,
};
use transaction_log::record::{
    Record, RecordHeader, RecordId, RecordLength, RecordReadError, SequenceNumber, StreamId,
};
use transaction_log::storage::{StorageError, StoragePath};
use transaction_log::stream_checkpoint::StreamCheckpoint;
use transaction_log::stream_initializer::{
    Initialization, InitializationRequest, InitializationState, InitializedStream,
    StreamInitializationError, StreamInitializer,
};
use transaction_log::validation::{
    IndexFileValidationError, IndexedLogValidationError, IndexedLogValidator,
    LogFileValidationError, PairRecovery, PairRequest, ScanRequest, ValidatedFilePair,
};

type Contents = Rc<RefCell<Vec<u8>>>;

/// A handle on contents in memory.
#[derive(Clone)]
struct TestFile {
    contents: Contents,
    cursor: usize,
}

fn contents(bytes: &[u8]) -> Contents {
    Rc::new(RefCell::new(bytes.to_vec()))
}

fn os_error(code: i32) -> IoError {
    IoError::new(IoErrorKind::Other, Some(code), "scripted".to_string())
}

impl TestFile {
    fn open(contents: &Contents) -> TestFile {
        TestFile {
            contents: Rc::clone(contents),
            cursor: 0,
        }
    }

    fn length(&self) -> u64 {
        self.contents.borrow().len() as u64
    }

    fn perform(&mut self, request: FileRequest, offered: &[u8]) -> FileReply {
        let mut bytes = self.contents.borrow_mut();
        let remaining = bytes.len().saturating_sub(self.cursor);
        match request {
            FileRequest::Length => FileReply::Length(bytes.len() as u64),
            FileRequest::SetLen(length) => {
                bytes.resize(length as usize, 0);
                FileReply::Done
            }
            FileRequest::Seek(offset) => {
                self.cursor = offset as usize;
                FileReply::Done
            }
            FileRequest::ReadExact(count) => {
                if remaining < count {
                    return FileReply::Failed(IoError::new(
                        IoErrorKind::UnexpectedEof,
                        None,
                        "early end of file".to_string(),
                    ));
                }
                let start = self.cursor;
                self.cursor += count;
                FileReply::Bytes(bytes[start..start + count].to_vec())
            }
            FileRequest::ReadUpTo(limit) => {
                let count = remaining.min(limit as usize);
                let start = self.cursor;
                self.cursor += count;
                FileReply::Bytes(bytes[start..start + count].to_vec())
            }
            FileRequest::Write => {
                let end = self.cursor + offered.len();
                if bytes.len() < end {
                    bytes.resize(end, 0);
                }
                bytes[self.cursor..end].copy_from_slice(offered);
                self.cursor = end;
                FileReply::Accepted(offered.len())
            }
            FileRequest::Flush | FileRequest::SyncData => FileReply::Done,
        }
    }

    /// Reads everything behind the cursor.
    fn read_to_end(&mut self) -> Vec<u8> {
        let bytes = self.contents.borrow();
        let start = self.cursor.min(bytes.len());
        self.cursor = bytes.len();
        bytes[start..].to_vec()
    }
}

fn crc32c(bytes: &[u8]) -> u32 {
    let mut crc = u32::MAX;
    for byte in bytes {
        crc ^= u32::from(*byte);
        for _ in 0..8 {
            let mask = (crc & 1).wrapping_neg();
            crc = (crc >> 1) ^ (0x82f6_3b78 & mask);
        }
    }
    !crc
}

fn encode(id: RecordId, payload: &[u8]) -> Vec<u8> {
    let mut bytes = Vec::with_capacity(payload.len() + 16);
    bytes.extend_from_slice(&((payload.len() + 16) as u16).to_le_bytes());
    bytes.extend_from_slice(&id.stream_id().get().to_le_bytes());
    bytes.extend_from_slice(&id.sequence_number().get().to_le_bytes());
    bytes.extend_from_slice(payload);
    let checksum = crc32c(&bytes);
    bytes.extend_from_slice(&checksum.to_le_bytes());
    bytes
}

/// Decodes records in batches. Damage is reported behind the records before it.
struct Decoder {
    buffered: Vec<u8>,
    decoded: VecDeque<RecordHeader>,
    damage: Option<RecordReadError>,
}

impl Decoder {
    fn new(source: &[u8]) -> Decoder {
        Decoder {
            buffered: source.to_vec(),
            decoded: VecDeque::new(),
            damage: None,
        }
    }

    fn decode(&mut self) {
        let mut start = 0;
        while self.damage.is_none() {
            let bytes = &self.buffered[start..];
            if bytes.len() < 12 {
                break;
            }
            let declared = u16::from_le_bytes([bytes[0], bytes[1]]);
            let Ok(length) = RecordLength::new(u64::from(declared)) else {
                self.damage = Some(RecordReadError::InvalidLength {
                    declared: u64::from(declared),
                    description: format!("length {declared} is outside 16 through 65535"),
                });
                break;
            };
            let stream = u16::from_le_bytes([bytes[2], bytes[3]]);
            let Ok(stream) = StreamId::new(stream) else {
                self.damage = Some(RecordReadError::InvalidStreamId {
                    description: format!("stream {stream} is above 4095"),
                });
                break;
            };
            let length_in_bytes = length.get() as usize;
            if bytes.len() < length_in_bytes {
                break;
            }
            let (content, checksum) = bytes[..length_in_bytes].split_at(length_in_bytes - 4);
            let expected = crc32c(content);
            if expected.to_le_bytes() != checksum {
                self.damage = Some(RecordReadError::CrcMismatch {
                    description: format!("checksum is not {expected:08x}"),
                });
                break;
            }
            let sequence = u64::from_le_bytes(bytes[4..12].try_into().unwrap());
            self.decoded.push_back(RecordHeader {
                id: RecordId::new(stream, SequenceNumber::new(sequence)),
                length,
            });
            start += length_in_bytes;
        }
        self.buffered.drain(..start);
    }

    /// Waits for a batch.
    fn wait(&mut self) -> Result<bool, RecordReadError> {
        self.decode();
        if !self.decoded.is_empty() {
            return Ok(true);
        }
        if let Some(damage) = self.damage.take() {
            return Err(damage);
        }
        match self.buffered.len() {
            0 => Ok(false),
            read @ 1..=11 => Err(RecordReadError::TruncatedHeader {
                description: format!("{read} of 12 header bytes"),
            }),
            read => Err(RecordReadError::TruncatedRecord {
                description: format!("record ends after {read} bytes"),
            }),
        }
    }
}

type State = InitializationState<TestFile>;
type Writer = IndexedLogWriter<TestFile, TestFile>;

/// Files and one checkpoint in memory.
#[derive(Default)]
struct Storage {
    files: Vec<(StoragePath, Contents)>,
    checkpoint: Option<StreamCheckpoint>,
    /// Paths at which something other than a file is in the way.
    blocked: Vec<StoragePath>,
}

impl Storage {
    fn get(&self, path: StoragePath) -> Option<&Contents> {
        self.files
            .iter()
            .find(|(stored, _)| *stored == path)
            .map(|(_, contents)| contents)
    }

    fn put(&mut self, path: StoragePath, bytes: &[u8]) {
        self.files.retain(|(stored, _)| *stored != path);
        self.files.push((path, contents(bytes)));
    }

    fn log(&self, id: LogFileId) -> Option<Vec<u8>> {
        self.get(StoragePath::Log(id))
            .map(|contents| contents.borrow().clone())
    }

    fn index(&self, id: LogFileId) -> Option<Vec<u8>> {
        self.get(StoragePath::Index(id))
            .map(|contents| contents.borrow().clone())
    }

    fn store_pair(&mut self, id: LogFileId, log: &[u8], index: Option<&[u8]>) {
        self.put(StoragePath::Log(id), log);
        if let Some(index) = index {
            self.put(StoragePath::Index(id), index);
        }
    }

    fn check(&self, path: StoragePath) -> Result<(), StorageError> {
        if self.blocked.contains(&path) {
            return Err(StorageError::Io {
                path,
                source: os_error(21),
                description: "path is blocked".to_string(),
            });
        }
        Ok(())
    }

    fn read_checkpoint(&self, stream: StreamId) -> Result<Option<StreamCheckpoint>, StorageError> {
        self.check(StoragePath::Checkpoint(stream))?;
        Ok(self.checkpoint)
    }

    fn maximum_log_file(&self, stream: StreamId) -> Result<Option<LogFileId>, StorageError> {
        self.check(StoragePath::Stream(stream))?;
        Ok(self
            .files
            .iter()
            .filter_map(|(path, _)| match path {
                StoragePath::Log(id) if id.stream_id() == stream => Some(*id),
                _ => None,
            })
            .max_by_key(|id| id.file_number().get()))
    }

    fn open_log(&self, id: LogFileId) -> Result<TestFile, StorageError> {
        let path = StoragePath::Log(id);
        self.check(path)?;
        match self.get(path) {
            Some(contents) => Ok(TestFile::open(contents)),
            None => Err(StorageError::Io {
                path,
                source: IoError::new(IoErrorKind::NotFound, Some(2), "not found".to_string()),
                description: "log cannot be opened: not found".to_string(),
            }),
        }
    }

    fn open_or_create_index(&mut self, id: LogFileId) -> Result<TestFile, StorageError> {
        let path = StoragePath::Index(id);
        self.check(path)?;
        if self.get(path).is_none() {
            self.put(path, &[]);
        }
        Ok(TestFile::open(self.get(path).unwrap()))
    }

    fn create_log_and_index(&mut self, id: LogFileId) -> Result<(TestFile, TestFile), StorageError> {
        self.check(StoragePath::Log(id))?;
        self.check(StoragePath::Index(id))?;
        assert!(self.log(id).is_none() && self.index(id).is_none());
        self.store_pair(id, &[], Some(&[]));
        Ok((self.open_log(id)?, self.open_or_create_index(id)?))
    }

    fn remove_pairs(&mut self, first: LogFileId, last: LogFileId) -> Result<(), StorageError> {
        let mut files = first.iter_to(last).unwrap();
        while let Some(id) = files.next() {
            for path in [StoragePath::Log(id), StoragePath::Index(id)] {
                self.check(path)?;
                self.files.retain(|(stored, _)| *stored != path);
            }
        }
        Ok(())
    }

    fn recover(
        &mut self,
        file_id: LogFileId,
        last_trusted: Option<RecordEndLocation>,
    ) -> Result<ValidatedFilePair<TestFile>, IndexedLogValidationError> {
        let mut recovery: PairRecovery<TestFile> =
            IndexedLogValidator::validate(file_id, last_trusted);
        loop {
            recovery = match recovery.request() {
                PairRequest::OpenLog => recovery.opened(self.open_log(file_id))?,
                PairRequest::OpenIndex => recovery.opened(self.open_or_create_index(file_id))?,
                PairRequest::Log(request) => {
                    let reply = recovery.log_file().perform(request, &[]);
                    recovery.resume(reply)?
                }
                PairRequest::ScanLog => {
                    let bytes = recovery.log_file().read_to_end();
                    let mut decoder = Decoder::new(&bytes);
                    let mut scan = recovery.scan();
                    let findings = loop {
                        let step = match scan.request() {
                            ScanRequest::WaitToRead => scan.waited(decoder.wait()),
                            ScanRequest::TryReadNext => {
                                scan.read(Ok(decoder.decoded.pop_front()))
                            }
                            ScanRequest::Finished => break scan.finish(),
                        };
                        step.unwrap();
                    };
                    recovery.scanned(Ok(findings))?
                }
                PairRequest::Index(request) => {
                    let (index, offered) = recovery.index_destination();
                    let reply = index.perform(request, offered);
                    recovery.resume(reply)?
                }
                PairRequest::Finished => return Ok(recovery.finish()),
            };
        }
    }

    fn load_checkpoint(&self, state: &mut State) -> Result<(), StreamInitializationError> {
        state.load_checkpoint(self.read_checkpoint(state.stream_id()))
    }

    fn discover_log_files(&self, state: &mut State) -> Result<(), StreamInitializationError> {
        state.discover_log_files(self.maximum_log_file(state.stream_id()))
    }

    fn validation_state(&self) -> State {
        let mut state = State::new(stream());
        self.load_checkpoint(&mut state).unwrap();
        self.discover_log_files(&mut state).unwrap();
        state
    }

    fn validate_files(&mut self, state: &mut State) -> Result<(), StreamInitializationError> {
        let mut next = state.validate_files()?;
        while let Some(pending) = next {
            let outcome = self.recover(pending.file_id, pending.last_trusted);
            next = state.pair_validated(outcome)?;
        }
        Ok(())
    }

    fn remove_later_files(&mut self, state: &State) -> Result<(), StorageError> {
        match state.remove_later_files() {
            None => Ok(()),
            Some((first, last)) => self.remove_pairs(first, last),
        }
    }

    fn initialize(
        &mut self,
        stream: StreamId,
    ) -> Result<InitializedStream<TestFile>, StreamInitializationError> {
        let mut initialization: Initialization<TestFile> = StreamInitializer::initialize(stream);
        loop {
            initialization = match initialization.request() {
                InitializationRequest::ReadCheckpoint => {
                    initialization.checkpoint_read(self.read_checkpoint(stream))?
                }
                InitializationRequest::FindMaximumLog => {
                    initialization.maximum_found(self.maximum_log_file(stream))?
                }
                InitializationRequest::ValidatePair(pending) => {
                    let outcome = self.recover(pending.file_id, pending.last_trusted);
                    initialization.pair_validated(outcome)?
                }
                InitializationRequest::RemovePairs { first, last } => {
                    initialization.pairs_removed(self.remove_pairs(first, last))?
                }
                InitializationRequest::CreatePair(file_id) => {
                    initialization.pair_created(self.create_log_and_index(file_id))?
                }
                InitializationRequest::PublishCheckpoint(checkpoint) => {
                    let published = self.check(StoragePath::Checkpoint(stream));
                    if published.is_ok() {
                        self.checkpoint = Some(checkpoint);
                    }
                    initialization.checkpoint_published(published)?
                }
                InitializationRequest::Finished => return Ok(initialization.finish()),
            };
        }
    }
}

fn drive(writer: &mut Writer, begun: PairOutputResult) {
    let mut request = begun.unwrap();
    while let Some(output) = request {
        let ((file, offered), operation) = match output {
            PairOutput::WriteLog => (writer.log_destination(), FileRequest::Write),
            PairOutput::FlushLog => (writer.log_destination(), FileRequest::Flush),
            PairOutput::SyncLog => (writer.log_destination(), FileRequest::SyncData),
            PairOutput::WriteIndex => (writer.index_destination(), FileRequest::Write),
            PairOutput::FlushIndex => (writer.index_destination(), FileRequest::Flush),
            PairOutput::SyncIndex => (writer.index_destination(), FileRequest::SyncData),
        };
        let accepted = match file.perform(operation, offered) {
            FileReply::Accepted(accepted) => accepted,
            _ => 0,
        };
        request = writer.resume(Ok(accepted)).unwrap();
    }
}

fn flush(writer: &mut Writer) {
    let begun = writer.flush();
    drive(writer, begun);
}

fn sync_data(writer: &mut Writer) {
    let begun = writer.sync_data();
    drive(writer, begun);
}

// Independent protocol fixtures: stream 7, sequences 0/1, payloads empty/abc.
const FIRST: &[u8] = &[16, 0, 7, 0, 0, 0, 0, 0, 0, 0, 0, 0, 215, 226, 50, 73];
const SECOND: &[u8] = &[
    19, 0, 7, 0, 1, 0, 0, 0, 0, 0, 0, 0, 97, 98, 99, 18, 247, 123, 204,
];

fn stream() -> StreamId {
    StreamId::new(7).unwrap()
}

fn id(sequence: u64) -> RecordId {
    RecordId::new(stream(), SequenceNumber::new(sequence))
}

fn file_id(number: u64) -> LogFileId {
    LogFileId::new(stream(), LogFileNumber::new(number).unwrap())
}

fn end_at(id: RecordId, position: u64) -> RecordEndLocation {
    RecordEndLocation::new(id, LogFilePosition::new(position))
}

fn encoded_records(id: LogFileId, indices: Range<u64>) -> Vec<u8> {
    indices
        .flat_map(|index| encode(id.record_id_at(index).unwrap(), &[]))
        .collect()
}

fn records(first: u64, payload_lengths: &[usize]) -> Vec<Record> {
    payload_lengths
        .iter()
        .enumerate()
        .map(|(offset, &length)| {
            let id = id(first + offset as u64);
            Record::new(id, encode(id, &vec![0xa5; length])).unwrap()
        })
        .collect()
}

// Checkpoints.

#[test]
fn load_checkpoint_accepts_absence_without_creating_storage() {
    let storage = Storage::default();
    let mut state = State::new(StreamId::min());
    storage.load_checkpoint(&mut state).unwrap();
    assert_eq!(state.checkpoint(), None);
    assert!(storage.files.is_empty());
}

#[test]
fn load_checkpoint_loads_literal_metadata_without_requiring_log_files() {
    for (sequence, position) in [(0, 16), (100_001, 35)] {
        let checkpoint = StreamCheckpoint::new(end_at(id(sequence), position));
        let storage = Storage {
            checkpoint: Some(checkpoint),
            ..Storage::default()
        };
        let mut state = State::new(stream());
        storage.load_checkpoint(&mut state).unwrap();
        assert_eq!(state.checkpoint(), Some(checkpoint));
        assert_eq!(storage.checkpoint, Some(checkpoint));
        assert!(storage.files.is_empty());
    }
}

#[test]
fn load_checkpoint_rejects_another_stream_without_changing_state_or_storage() {
    let foreign = RecordId::new(StreamId::new(8).unwrap(), SequenceNumber::new(0));
    let mut storage = Storage::default();
    let previous = Some(StreamCheckpoint::new(end_at(id(0), 16)));
    storage.checkpoint = previous;
    let mut state = State::new(stream());
    storage.load_checkpoint(&mut state).unwrap();
    let stored = Some(StreamCheckpoint::new(end_at(foreign, 16)));
    storage.checkpoint = stored;

    let error = storage.load_checkpoint(&mut state).unwrap_err();

    assert!(matches!(
        error,
        StreamInitializationError::ForeignCheckpoint { actual, expected }
            if actual.get() == 8 && expected.get() == 7
    ));
    assert_eq!(
        error.message("data/7/checkpoint.json"),
        "checkpoint at data/7/checkpoint.json belongs to stream 8, expected 7"
    );
    assert_eq!(state.checkpoint(), previous);
    assert_eq!(storage.checkpoint, stored);
}

#[test]
fn load_checkpoint_preserves_json_errors_and_previous_state() {
    let previous = Some(StreamCheckpoint::new(end_at(
        RecordId::new(StreamId::min(), SequenceNumber::new(0)),
        16,
    )));
    let mut state = State::new(StreamId::min());
    state.load_checkpoint(Ok(previous)).unwrap();

    let path = StoragePath::Checkpoint(StreamId::min());
    let error = state
        .load_checkpoint(Err(StorageError::Json {
            path,
            description: "key must be a string".to_string(),
        }))
        .unwrap_err();

    assert!(matches!(
        &error,
        StreamInitializationError::Storage(StorageError::Json { path: found, description })
            if *found == path && description == "key must be a string"
    ));
    assert_eq!(
        error.message("checkpoint.json"),
        "key must be a string"
    );
    assert_eq!(state.checkpoint(), previous);
}

#[test]
fn load_checkpoint_preserves_io_errors_and_previous_state() {
    let previous = Some(StreamCheckpoint::new(end_at(
        RecordId::new(StreamId::min(), SequenceNumber::new(0)),
        16,
    )));
    let mut state = State::new(StreamId::min());
    state.load_checkpoint(Ok(previous)).unwrap();
    let storage = Storage {
        blocked: vec![StoragePath::Checkpoint(StreamId::min())],
        ..Storage::default()
    };

    let error = storage.load_checkpoint(&mut state).unwrap_err();

    assert!(matches!(
        error,
        StreamInitializationError::Storage(StorageError::Io { path, .. })
            if path == StoragePath::Checkpoint(StreamId::min())
    ));
    assert_eq!(state.checkpoint(), previous);
}

// Discovery.

#[test]
fn discovery_accepts_absent_logs_without_a_checkpoint() {
    let mut storage = Storage::default();
    let mut state = State::new(stream());
    storage.discover_log_files(&mut state).unwrap();
    assert_eq!(state.maximum_log_file(), None);
    assert!(storage.files.is_empty());

    storage.put(StoragePath::Index(file_id(0)), b"orphan index");
    storage.discover_log_files(&mut state).unwrap();
    assert_eq!(state.maximum_log_file(), None);
    assert_eq!(storage.index(file_id(0)).unwrap(), b"orphan index");
    assert_eq!(storage.files.len(), 1);
}

#[test]
fn discovery_records_the_maximum_for_this_stream_including_an_empty_log() {
    let mut storage = Storage::default();
    for (stream, number, bytes) in [
        (7, 0, &b"unvalidated"[..]),
        (7, 4, &b""[..]),
        (8, 10, &b"other stream"[..]),
    ] {
        let id = LogFileId::new(
            StreamId::new(stream).unwrap(),
            LogFileNumber::new(number).unwrap(),
        );
        storage.store_pair(id, bytes, None);
    }
    let mut state = State::new(stream());

    storage.discover_log_files(&mut state).unwrap();

    assert_eq!(state.maximum_log_file(), Some(file_id(4)));
    assert!(storage.log(file_id(4)).unwrap().is_empty());
    assert!(storage.index(file_id(4)).is_none());
    assert_eq!(storage.log(file_id(0)).unwrap(), b"unvalidated");
}

#[test]
fn discovery_accepts_a_maximum_at_or_after_the_checkpoint_file() {
    for maximum_number in [2, 4] {
        let maximum = file_id(maximum_number);
        let checkpoint = StreamCheckpoint::new(end_at(id(200_000), 16));
        let mut storage = Storage {
            checkpoint: Some(checkpoint),
            ..Storage::default()
        };
        storage.store_pair(maximum, b"", None);
        let mut state = State::new(stream());
        storage.load_checkpoint(&mut state).unwrap();

        storage.discover_log_files(&mut state).unwrap();

        // Presence and length of the checkpointed log and index belong to validation.
        assert_eq!(state.maximum_log_file(), Some(maximum));
        assert_eq!(state.checkpoint(), Some(checkpoint));
        assert_eq!(state.recovered_end(), None);
        assert!(storage.index(maximum).is_none());
        assert!(storage.log(maximum).unwrap().is_empty());
    }
}

#[test]
fn discovery_rejects_absent_or_older_logs_without_replacing_state() {
    for (checkpoint_number, maximum_number) in [(0, None), (2, None), (2, Some(0)), (2, Some(1))] {
        let checkpoint_file = file_id(checkpoint_number);
        let checkpoint = StreamCheckpoint::new(end_at(checkpoint_file.first_record_id(), 16));
        let mut storage = Storage {
            checkpoint: Some(checkpoint),
            ..Storage::default()
        };
        if let Some(number) = maximum_number {
            storage.store_pair(file_id(number), b"preserve", None);
        }
        let mut state = State::new(stream());
        storage.load_checkpoint(&mut state).unwrap();
        state.discover_log_files(Ok(Some(checkpoint_file))).unwrap();

        let error = storage.discover_log_files(&mut state).unwrap_err();

        let expected_message = match maximum_number {
            None => {
                assert!(matches!(
                    error,
                    StreamInitializationError::MissingLogs { .. }
                ));
                format!("stream 7 has checkpointed file {checkpoint_number} but no log files")
            }
            Some(number) => {
                assert!(matches!(
                    error,
                    StreamInitializationError::OutdatedLogs { .. }
                ));
                format!(
                    "maximum log file {number} for stream 7 is below checkpointed file {checkpoint_number}"
                )
            }
        };
        assert_eq!(error.message("unused"), expected_message);
        assert_eq!(state.maximum_log_file(), Some(checkpoint_file));
        assert_eq!(state.checkpoint(), Some(checkpoint));
        assert_eq!(
            storage.maximum_log_file(stream()).unwrap(),
            maximum_number.map(file_id)
        );
    }
}

#[test]
fn discovery_preserves_io_errors_and_previous_state() {
    let storage = Storage {
        blocked: vec![StoragePath::Stream(stream())],
        ..Storage::default()
    };
    let mut state = State::new(stream());
    let previous = Some(file_id(0));
    state.discover_log_files(Ok(previous)).unwrap();

    let error = storage.discover_log_files(&mut state).unwrap_err();

    assert!(matches!(
        error,
        StreamInitializationError::Storage(StorageError::Io { path, .. })
            if path == StoragePath::Stream(stream())
    ));
    assert_eq!(state.maximum_log_file(), previous);
}

#[test]
fn a_maximum_of_another_stream_bounds_no_range() {
    let foreign = LogFileId::first(StreamId::new(8).unwrap());
    let mut state = State::new(stream());
    state.discover_log_files(Ok(Some(foreign))).unwrap();
    let error = state.validate_files().unwrap_err();
    assert!(matches!(
        error,
        StreamInitializationError::Range(LogFileIdRangeError::DifferentStreams { .. })
    ));
    assert_eq!(
        error.message("unused"),
        "log-file range endpoints belong to different streams: \
         LogFileId { stream_id: StreamId(7), file_number: LogFileNumber(0) } through \
         LogFileId { stream_id: StreamId(8), file_number: LogFileNumber(0) }"
    );
}

// Validation.

#[test]
fn validation_with_no_logs_creates_nothing() {
    let mut storage = Storage::default();
    let mut state = storage.validation_state();
    storage.validate_files(&mut state).unwrap();
    assert_eq!(state.recovered_end(), None);
    assert!(state.active_pair().is_none());
    assert_eq!(state.first_file_to_remove(), None);
    assert!(storage.files.is_empty());
}

#[test]
fn validation_stops_at_the_first_partial_pair_and_only_marks_future_cleanup() {
    for log in [Vec::new(), FIRST.to_vec(), [FIRST, &[0xff; 3]].concat()] {
        let mut storage = Storage::default();
        storage.store_pair(file_id(0), &log, Some(&[0xff; 19]));
        storage.store_pair(file_id(2), b"future log", Some(b"future index"));
        let mut state = storage.validation_state();

        storage.validate_files(&mut state).unwrap();

        let end = (!log.is_empty()).then(|| end_at(file_id(0).first_record_id(), 16));
        assert_eq!(state.recovered_end(), end);
        assert_eq!(state.first_file_to_remove(), Some(file_id(1)));
        let pair = state.active_pair().as_ref().unwrap();
        assert_eq!(pair.file_id(), file_id(0));
        assert_eq!(pair.end(), end);
        assert_eq!(
            pair.log().cursor as u64,
            end.map_or(0, |end| end.position().get())
        );
        assert_eq!(pair.index().cursor, if end.is_some() { 8 } else { 0 });
        assert_eq!(
            storage.log(file_id(0)).unwrap(),
            if end.is_some() { FIRST } else { &[] }
        );
        assert_eq!(
            storage.index(file_id(0)).unwrap(),
            if end.is_some() {
                &[16, 0, 0, 0, 0, 0, 0, 0][..]
            } else {
                &[]
            }
        );
        assert_eq!(storage.log(file_id(2)).unwrap(), b"future log");
        assert_eq!(storage.index(file_id(2)).unwrap(), b"future index");
        assert_eq!(storage.checkpoint, None);
    }
}

#[test]
fn validation_walks_complete_files_and_preserves_progress_at_an_empty_active_pair() {
    let first_log = encoded_records(file_id(0), 0..100_000);
    let second_log = encoded_records(file_id(1), 0..100_000);
    let partial_log = encoded_records(file_id(2), 0..1);
    let full_index: Vec<u8> = (1..=100_000_u64)
        .flat_map(|n| (n * 16).to_le_bytes())
        .collect();
    for tail in [None, Some(&[][..]), Some(partial_log.as_slice())] {
        let mut storage = Storage::default();
        storage.store_pair(file_id(0), &first_log, None);
        storage.store_pair(file_id(1), &second_log, None);
        if let Some(tail) = tail {
            storage.store_pair(file_id(2), tail, None);
        }
        let mut state = storage.validation_state();

        storage.validate_files(&mut state).unwrap();

        let expected_end = if tail.is_some_and(|bytes| !bytes.is_empty()) {
            end_at(file_id(2).first_record_id(), 16)
        } else {
            end_at(file_id(1).last_record_id(), 1_600_000)
        };
        assert_eq!(state.recovered_end(), Some(expected_end));
        assert_eq!(state.first_file_to_remove(), None);
        assert_eq!(storage.index(file_id(0)).unwrap(), full_index);
        assert_eq!(storage.index(file_id(1)).unwrap(), full_index);
        if let Some(tail) = tail {
            let pair = state.active_pair().as_ref().unwrap();
            assert_eq!(pair.file_id(), file_id(2));
            assert_eq!(pair.end(), (!tail.is_empty()).then_some(expected_end));
            assert_eq!(pair.log().cursor, tail.len());
            assert_eq!(pair.index().cursor, if tail.is_empty() { 0 } else { 8 });
        } else {
            assert!(state.active_pair().is_none());
            assert!(storage.log(file_id(2)).is_none());
            assert!(storage.index(file_id(2)).is_none());
        }
        assert_eq!(storage.checkpoint, None);
    }
}

#[test]
fn validation_uses_the_original_checkpoint_for_the_index_and_does_not_publish() {
    let trusted = end_at(file_id(0).first_record_id(), 16);
    let mut storage = Storage {
        checkpoint: Some(StreamCheckpoint::new(trusted)),
        ..Storage::default()
    };
    storage.store_pair(
        file_id(0),
        &[FIRST, SECOND].concat(),
        Some(&16_u64.to_le_bytes()),
    );
    let mut state = storage.validation_state();

    storage.validate_files(&mut state).unwrap();

    let expected = end_at(trusted.record_id().next(), 35);
    assert_eq!(state.recovered_end(), Some(expected));
    assert_eq!(
        state.active_pair().as_ref().unwrap().end(),
        Some(expected)
    );
    assert_eq!(state.checkpoint().unwrap().end(), trusted);
    assert_eq!(state.first_file_to_remove(), None);
    assert_eq!(
        storage.index(file_id(0)).unwrap(),
        [16_u64.to_le_bytes(), 35_u64.to_le_bytes()].concat()
    );
    assert_eq!(storage.checkpoint, Some(StreamCheckpoint::new(trusted)));
}

#[test]
fn validation_starts_in_the_checkpoint_file_and_clears_trust_for_following_files() {
    let trusted = end_at(file_id(1).last_record_id(), 1_600_000);
    let mut storage = Storage {
        checkpoint: Some(StreamCheckpoint::new(trusted)),
        ..Storage::default()
    };
    storage.store_pair(file_id(0), b"earlier log", Some(b"earlier index"));
    // Deliberately unparseable certified bytes prove that the prefix is not rescanned.
    let trusted_log = vec![0xff; 1_600_000];
    let mut trusted_index = vec![0xff; 800_000];
    trusted_index[799_992..].copy_from_slice(&1_600_000_u64.to_le_bytes());
    storage.store_pair(file_id(1), &trusted_log, Some(&trusted_index));
    storage.store_pair(file_id(2), &encoded_records(file_id(2), 0..1), None);
    let mut state = storage.validation_state();

    storage.validate_files(&mut state).unwrap();

    assert_eq!(
        state.recovered_end(),
        Some(end_at(file_id(2).first_record_id(), 16))
    );
    assert_eq!(
        state.active_pair().as_ref().unwrap().file_id(),
        file_id(2)
    );
    assert_eq!(storage.log(file_id(0)).unwrap(), b"earlier log");
    assert_eq!(storage.index(file_id(0)).unwrap(), b"earlier index");
    assert_eq!(storage.log(file_id(1)).unwrap(), trusted_log);
    assert_eq!(storage.index(file_id(1)).unwrap(), trusted_index);
    assert_eq!(storage.index(file_id(2)).unwrap(), 16_u64.to_le_bytes());
    assert_eq!(storage.checkpoint, Some(StreamCheckpoint::new(trusted)));
}

#[test]
fn validation_marks_an_uncheckpointed_gap_including_its_orphan_index() {
    let full_log = encoded_records(file_id(0), 0..100_000);
    for gap in [file_id(0), file_id(1)] {
        let mut storage = Storage::default();
        if gap == file_id(1) {
            storage.store_pair(file_id(0), &full_log, None);
        }
        storage.store_pair(file_id(2), b"future log", Some(b"future index"));
        storage.put(StoragePath::Index(gap), b"orphan index");
        let mut state = storage.validation_state();

        storage.validate_files(&mut state).unwrap();

        assert_eq!(state.first_file_to_remove(), Some(gap));
        assert!(state.active_pair().is_none());
        assert_eq!(
            state.recovered_end(),
            (gap == file_id(1)).then(|| end_at(file_id(0).last_record_id(), 1_600_000))
        );
        assert!(storage.log(gap).is_none());
        assert_eq!(storage.index(gap).unwrap(), b"orphan index");
        assert_eq!(storage.log(file_id(2)).unwrap(), b"future log");
        assert_eq!(storage.index(file_id(2)).unwrap(), b"future index");
    }
}

#[test]
fn validation_rejects_a_missing_checkpointed_log_without_marking_cleanup() {
    let trusted = end_at(file_id(1).first_record_id(), 16);
    let mut storage = Storage {
        checkpoint: Some(StreamCheckpoint::new(trusted)),
        ..Storage::default()
    };
    storage.store_pair(file_id(2), b"future log", None);
    storage.put(StoragePath::Index(file_id(1)), b"orphan index");
    let mut state = storage.validation_state();

    let error = storage.validate_files(&mut state).unwrap_err();

    assert!(matches!(
        error,
        StreamInitializationError::Validation(IndexedLogValidationError::Storage(
            StorageError::Io { path, source, .. }
        )) if path == StoragePath::Log(file_id(1)) && source.kind() == IoErrorKind::NotFound
    ));
    assert_eq!(state.first_file_to_remove(), None);
    assert_eq!(state.recovered_end(), None);
    assert!(state.active_pair().is_none());
    assert_eq!(storage.index(file_id(1)).unwrap(), b"orphan index");
    assert_eq!(storage.log(file_id(2)).unwrap(), b"future log");
    assert_eq!(storage.checkpoint, Some(StreamCheckpoint::new(trusted)));
}

#[test]
fn validation_propagates_invalid_trusted_log_and_index_boundaries() {
    for invalid_log in [true, false] {
        let trusted = end_at(
            file_id(0).first_record_id(),
            if invalid_log { 17 } else { 16 },
        );
        let mut storage = Storage {
            checkpoint: Some(StreamCheckpoint::new(trusted)),
            ..Storage::default()
        };
        storage.store_pair(file_id(0), FIRST, None);
        storage.store_pair(file_id(1), b"future log", None);
        let mut state = storage.validation_state();

        match storage.validate_files(&mut state).unwrap_err() {
            StreamInitializationError::Validation(IndexedLogValidationError::Log(
                LogFileValidationError::InvalidStart(_),
            )) => assert!(invalid_log),
            StreamInitializationError::Validation(IndexedLogValidationError::Index(
                IndexFileValidationError::TrustedIndexMismatch { .. },
            )) => assert!(!invalid_log),
            error => panic!("unexpected validation error: {error:?}"),
        }
        assert_eq!(state.first_file_to_remove(), None);
        assert_eq!(state.recovered_end(), None);
        assert!(state.active_pair().is_none());
        assert_eq!(storage.log(file_id(0)).unwrap(), FIRST);
        assert_eq!(storage.log(file_id(1)).unwrap(), b"future log");
        assert_eq!(storage.checkpoint, Some(StreamCheckpoint::new(trusted)));
    }
}

#[test]
fn validation_preserves_prior_progress_when_a_later_index_open_fails() {
    let mut storage = Storage {
        blocked: vec![StoragePath::Index(file_id(1))],
        ..Storage::default()
    };
    storage.store_pair(file_id(0), &encoded_records(file_id(0), 0..100_000), None);
    storage.store_pair(file_id(1), b"unvalidated", None);
    let mut state = storage.validation_state();

    let error = storage.validate_files(&mut state).unwrap_err();

    assert!(matches!(
        error,
        StreamInitializationError::Validation(IndexedLogValidationError::Storage(
            StorageError::Io { path, .. }
        )) if path == StoragePath::Index(file_id(1))
    ));
    assert_eq!(
        state.recovered_end(),
        Some(end_at(file_id(0).last_record_id(), 1_600_000))
    );
    assert_eq!(state.first_file_to_remove(), None);
    assert!(state.active_pair().is_none());
    assert_eq!(storage.log(file_id(1)).unwrap(), b"unvalidated");
    assert_eq!(storage.checkpoint, None);
}

// Cleanup.

#[test]
fn cleanup_without_logs_creates_nothing() {
    let mut storage = Storage::default();
    let mut state = storage.validation_state();
    storage.validate_files(&mut state).unwrap();

    storage.remove_later_files(&state).unwrap();

    assert!(storage.files.is_empty());
    assert_eq!(state.recovered_end(), None);
    assert!(state.active_pair().is_none());
}

#[test]
fn cleanup_without_a_boundary_keeps_the_final_partial_pair() {
    let mut storage = Storage::default();
    storage.store_pair(file_id(0), FIRST, None);
    let mut state = storage.validation_state();
    storage.validate_files(&mut state).unwrap();

    storage.remove_later_files(&state).unwrap();

    assert_eq!(storage.log(file_id(0)).unwrap(), FIRST);
    assert_eq!(storage.index(file_id(0)).unwrap(), 16_u64.to_le_bytes());
    assert_eq!(
        state.active_pair().as_ref().unwrap().file_id(),
        file_id(0)
    );
    assert_eq!(
        state.recovered_end(),
        Some(end_at(file_id(0).first_record_id(), 16))
    );
    assert_eq!(storage.checkpoint, None);
}

#[test]
fn cleanup_after_a_partial_pair_removes_only_later_pairs_through_the_maximum() {
    let active = file_id(999);
    let trusted = end_at(active.first_record_id(), 16);
    let mut storage = Storage {
        checkpoint: Some(StreamCheckpoint::new(trusted)),
        ..Storage::default()
    };
    storage.store_pair(file_id(0), b"earlier log", Some(b"earlier index"));
    let active_log = encoded_records(active, 0..1);
    storage.store_pair(active, &active_log, Some(&16_u64.to_le_bytes()));
    // Log-only, index-only and absent pairs.
    storage.store_pair(file_id(1000), b"log only", None);
    storage.put(StoragePath::Index(file_id(1001)), b"index only");
    storage.store_pair(file_id(1003), b"maximum log", Some(b"maximum index"));
    storage.put(StoragePath::Index(file_id(1005)), b"outside cleanup range");
    let other_stream = LogFileId::new(StreamId::new(8).unwrap(), LogFileNumber::new(1000).unwrap());
    storage.store_pair(other_stream, b"other log", Some(b"other index"));
    let mut state = storage.validation_state();
    storage.validate_files(&mut state).unwrap();
    assert_eq!(state.first_file_to_remove(), Some(file_id(1000)));

    storage.remove_later_files(&state).unwrap();
    // Repeating successful cleanup tolerates the now-absent pairs.
    storage.remove_later_files(&state).unwrap();

    for number in 1000..=1003 {
        assert!(storage.log(file_id(number)).is_none());
        assert!(storage.index(file_id(number)).is_none());
    }
    assert_eq!(
        storage.index(file_id(1005)).unwrap(),
        b"outside cleanup range"
    );
    assert_eq!(storage.log(file_id(0)).unwrap(), b"earlier log");
    assert_eq!(storage.index(file_id(0)).unwrap(), b"earlier index");
    assert_eq!(storage.log(other_stream).unwrap(), b"other log");
    assert_eq!(storage.index(other_stream).unwrap(), b"other index");
    assert_eq!(storage.log(active).unwrap(), active_log);
    assert_eq!(storage.index(active).unwrap(), 16_u64.to_le_bytes());
    assert_eq!(storage.checkpoint, Some(StreamCheckpoint::new(trusted)));
    assert_eq!(state.checkpoint().unwrap().end(), trusted);
    assert_eq!(state.recovered_end(), Some(trusted));
    let pair = state.active_pair().as_ref().unwrap();
    assert_eq!(pair.file_id(), active);
    assert_eq!(pair.end(), Some(trusted));
    assert_eq!(pair.log().cursor, 16);
    assert_eq!(pair.index().cursor, 8);
}

#[test]
fn cleanup_after_a_gap_removes_its_orphan_index_and_later_pairs() {
    let mut storage = Storage::default();
    let full_log = encoded_records(file_id(0), 0..100_000);
    storage.store_pair(file_id(0), &full_log, None);
    storage.put(StoragePath::Index(file_id(1)), b"orphan index");
    storage.store_pair(file_id(3), b"future log", Some(b"future index"));
    let mut state = storage.validation_state();
    storage.validate_files(&mut state).unwrap();
    assert_eq!(state.first_file_to_remove(), Some(file_id(1)));
    let full_index = storage.index(file_id(0)).unwrap();

    storage.remove_later_files(&state).unwrap();

    for number in 1..=3 {
        assert!(storage.log(file_id(number)).is_none());
        assert!(storage.index(file_id(number)).is_none());
    }
    assert_eq!(storage.log(file_id(0)).unwrap(), full_log);
    assert_eq!(storage.index(file_id(0)).unwrap(), full_index);
    assert_eq!(
        state.recovered_end(),
        Some(end_at(file_id(0).last_record_id(), 1_600_000))
    );
    assert!(state.active_pair().is_none());
    assert_eq!(storage.checkpoint, None);
}

#[test]
fn cleanup_stops_on_deletion_errors_and_can_repeat_after_partial_progress() {
    for block_log in [true, false] {
        let trusted = end_at(file_id(0).first_record_id(), 16);
        let mut storage = Storage {
            checkpoint: Some(StreamCheckpoint::new(trusted)),
            ..Storage::default()
        };
        storage.store_pair(file_id(0), FIRST, Some(&16_u64.to_le_bytes()));
        for number in 1..=3 {
            storage.store_pair(file_id(number), b"discard log", Some(b"discard index"));
        }
        let blocked_path = if block_log {
            StoragePath::Log(file_id(2))
        } else {
            StoragePath::Index(file_id(2))
        };
        storage.blocked.push(blocked_path);
        let mut state = storage.validation_state();
        storage.validate_files(&mut state).unwrap();

        let error = storage.remove_later_files(&state).unwrap_err();

        assert!(matches!(error, StorageError::Io { path, .. } if path == blocked_path));
        assert!(storage.log(file_id(1)).is_none());
        assert!(storage.index(file_id(1)).is_none());
        if block_log {
            assert_eq!(storage.index(file_id(2)).unwrap(), b"discard index");
        } else {
            assert!(storage.log(file_id(2)).is_none());
        }
        assert_eq!(storage.log(file_id(3)).unwrap(), b"discard log");
        assert_eq!(storage.index(file_id(3)).unwrap(), b"discard index");
        assert_eq!(state.first_file_to_remove(), Some(file_id(1)));
        assert_eq!(state.recovered_end(), Some(trusted));
        assert_eq!(
            state.active_pair().as_ref().unwrap().file_id(),
            file_id(0)
        );
        assert_eq!(storage.checkpoint, Some(StreamCheckpoint::new(trusted)));

        // Remove the obstruction and repeat.
        storage.blocked.clear();
        storage.remove_later_files(&state).unwrap();

        for number in 1..=3 {
            assert!(storage.log(file_id(number)).is_none());
            assert!(storage.index(file_id(number)).is_none());
        }
        assert_eq!(storage.log(file_id(0)).unwrap(), FIRST);
        assert_eq!(storage.index(file_id(0)).unwrap(), 16_u64.to_le_bytes());
        assert_eq!(storage.checkpoint, Some(StreamCheckpoint::new(trusted)));
    }
}

// Initialization as a whole, and what its writer continues.

#[test]
fn initialization_recovers_cleans_up_and_publishes_in_order() {
    let mut storage = Storage::default();
    storage.store_pair(file_id(0), &[FIRST, SECOND, &[0xff]].concat(), None);
    storage.store_pair(file_id(2), b"future log", Some(b"future index"));

    let initialized = storage.initialize(stream()).unwrap();

    let end = end_at(id(1), 35);
    assert_eq!(initialized.file_id(), file_id(0));
    assert_eq!(initialized.end(), Some(end));
    assert_eq!(storage.log(file_id(0)).unwrap(), [FIRST, SECOND].concat());
    assert_eq!(storage.log(file_id(2)), None);
    assert_eq!(storage.index(file_id(2)), None);
    assert_eq!(storage.checkpoint, Some(StreamCheckpoint::new(end)));
    // Initializing again finds the same stream.
    let again = storage.initialize(stream()).unwrap();
    assert_eq!(again.file_id(), file_id(0));
    assert_eq!(again.end(), Some(end));
    assert_eq!(storage.checkpoint, Some(StreamCheckpoint::new(end)));
}

#[test]
fn initialization_fills_a_gap_after_removing_what_lies_behind_it() {
    let mut storage = Storage::default();
    storage.store_pair(file_id(0), &encoded_records(file_id(0), 0..100_000), None);
    storage.put(StoragePath::Index(file_id(1)), b"orphan index");
    storage.store_pair(file_id(2), b"future log", Some(b"future index"));

    let initialized = storage.initialize(stream()).unwrap();

    assert_eq!(initialized.file_id(), file_id(1));
    assert_eq!(initialized.end(), None);
    assert_eq!(storage.log(file_id(1)).unwrap(), b"");
    assert_eq!(storage.index(file_id(1)).unwrap(), b"");
    assert_eq!(storage.log(file_id(2)), None);
    assert_eq!(
        storage.checkpoint,
        Some(StreamCheckpoint::new(end_at(id(99_999), 1_600_000)))
    );
}

#[test]
fn initialization_reports_each_storage_failure_and_stops() {
    let storage_path = |error: StreamInitializationError| match error {
        StreamInitializationError::Storage(StorageError::Io { path, .. }) => path,
        other => panic!("unexpected error: {other:?}"),
    };
    for path in [
        StoragePath::Checkpoint(stream()),
        StoragePath::Stream(stream()),
        StoragePath::Log(file_id(0)),
        StoragePath::Index(file_id(0)),
    ] {
        let mut storage = Storage {
            blocked: vec![path],
            ..Storage::default()
        };
        let error = storage.initialize(stream()).err().unwrap();
        assert_eq!(storage_path(error), path);
        assert!(storage.files.is_empty());
        assert_eq!(storage.checkpoint, None);
    }

    let mut storage = Storage {
        blocked: vec![StoragePath::Index(file_id(1))],
        ..Storage::default()
    };
    storage.store_pair(file_id(0), FIRST, None);
    storage.store_pair(file_id(1), b"future log", None);
    let error = storage.initialize(stream()).err().unwrap();
    assert_eq!(storage_path(error), StoragePath::Index(file_id(1)));
    assert_eq!(storage.checkpoint, None);

    let error = StreamInitializer::initialize::<TestFile>(stream())
        .checkpoint_read(Ok(None))
        .ok()
        .unwrap()
        .maximum_found(Ok(Some(file_id(0))))
        .ok()
        .unwrap()
        .pair_validated(Ok(ValidatedFilePair::Partial {
            end: Some(end_at(id(0), 16)),
            log: TestFile::open(&contents(FIRST)),
            index: TestFile::open(&contents(&16_u64.to_le_bytes())),
        }))
        .ok()
        .unwrap()
        .checkpoint_published(Err(StorageError::Io {
            path: StoragePath::Checkpoint(stream()),
            source: os_error(28),
            description: "checkpoint cannot be written".to_string(),
        }))
        .err()
        .unwrap();
    assert_eq!(storage_path(error), StoragePath::Checkpoint(stream()));
}

#[test]
fn independent_file_handles_read_flushed_data_and_resumption_preserves_the_prefix() {
    let mut storage = Storage::default();
    let (log, index) = storage.create_log_and_index(file_id(0)).unwrap();
    let mut log_reader = storage.open_log(file_id(0)).unwrap();
    let mut index_reader = storage.open_or_create_index(file_id(0)).unwrap();
    let records = records(0, &[0, 3]);
    let mut writer = IndexedLogWriter::new(file_id(0), log, index);
    assert_eq!(writer.expected_record_id(), id(0));
    assert_eq!(writer.record_count(), 0);
    assert_eq!(writer.buffered_end(), None);
    assert_eq!(writer.flushed_end(), None);
    assert_eq!(writer.synced_end(), None);
    writer.write_record(&records[0]).unwrap();
    assert_eq!(log_reader.length(), 0);
    assert_eq!(index_reader.length(), 0);
    flush(&mut writer);
    assert_eq!(writer.synced_end(), None);
    assert_eq!(log_reader.read_to_end(), records[0].as_bytes());
    assert_eq!(index_reader.read_to_end(), [16, 0, 0, 0, 0, 0, 0, 0]);
    let end = writer.flushed_end();
    drop(writer);

    // Independent cursors stay after the first record while the stream is recovered.
    let initialized = storage.initialize(stream()).unwrap();
    let mut writer = IndexedLogWriter::from(initialized);
    assert_eq!(writer.file_id(), file_id(0));
    assert_eq!(writer.record_count(), 1);
    assert_eq!(writer.expected_record_id(), records[1].id());
    assert_eq!(writer.buffered_end(), end);
    assert_eq!(writer.flushed_end(), end);
    assert_eq!(writer.synced_end(), end);
    writer.write_record(&records[1]).unwrap();
    assert_eq!(writer.flushed_end(), end);
    assert_eq!(writer.synced_end(), end);
    assert_eq!(log_reader.length(), 16);
    assert_eq!(index_reader.length(), 8);
    flush(&mut writer);
    let appended_end = Some(end_at(id(1), 35));
    assert_eq!(writer.flushed_end(), appended_end);
    assert_eq!(writer.synced_end(), end);
    sync_data(&mut writer);
    assert_eq!(log_reader.read_to_end(), records[1].as_bytes());
    assert_eq!(index_reader.read_to_end(), [35, 0, 0, 0, 0, 0, 0, 0]);
    assert_eq!(log_reader.length(), 35);
    assert_eq!(index_reader.length(), 16);
    assert_eq!(writer.synced_end(), appended_end);
    let expected: Vec<u8> = records
        .iter()
        .flat_map(|r| r.as_bytes().iter().copied())
        .collect();
    assert_eq!(storage.log(file_id(0)).unwrap(), expected);
}

#[test]
fn initialized_empty_pairs_start_without_progress_and_accept_sequence_zero() {
    for corrupt in [false, true] {
        let mut storage = Storage::default();
        if corrupt {
            storage.store_pair(file_id(0), &[1, 2, 3], Some(&[9; 13]));
        }
        let initialized = storage.initialize(stream()).unwrap();
        let mut writer: Writer = initialized.into();
        assert_eq!(writer.file_id(), file_id(0));
        assert_eq!(writer.record_count(), 0);
        assert_eq!(writer.expected_record_id(), id(0));
        assert_eq!(writer.buffered_end(), None);
        assert_eq!(writer.flushed_end(), None);
        assert_eq!(writer.synced_end(), None);
        assert!(!writer.is_full());
        flush(&mut writer);
        assert!(storage.log(file_id(0)).unwrap().is_empty());
        assert!(storage.index(file_id(0)).unwrap().is_empty());

        let records = records(0, &[3]);
        let outcome = writer.write_record(&records[0]).unwrap();
        assert_eq!(outcome.end(), end_at(records[0].id(), 19));
        assert!(!outcome.file_full());
        assert_eq!(writer.expected_record_id(), id(1));
        sync_data(&mut writer);
        assert_eq!(writer.record_count(), 1);
        assert_eq!(writer.synced_end(), Some(end_at(records[0].id(), 19)));
        assert_eq!(storage.log(file_id(0)).unwrap(), records[0].as_bytes());
        assert_eq!(
            storage.index(file_id(0)).unwrap(),
            [19, 0, 0, 0, 0, 0, 0, 0]
        );
        // Live checkpoint publication is separate from writer synchronization.
        assert_eq!(storage.checkpoint, None);
    }
}

#[test]
fn repaired_prefix_handover_preserves_durability_and_file_local_count() {
    for first_sequence in [0, 100_000] {
        let mut storage = Storage::default();
        let records = records(first_sequence, &[0, 3, 1]);
        let file_id = LogFileId::from_record_id(records[0].id());
        let (log, index) = storage.create_log_and_index(file_id).unwrap();
        let mut earlier = IndexedLogWriter::new(file_id, log, index);
        assert_eq!(earlier.expected_record_id(), records[0].id());
        earlier.write_record(&records[0]).unwrap();
        sync_data(&mut earlier);
        storage.checkpoint = Some(StreamCheckpoint::new(earlier.synced_end().unwrap()));
        earlier.write_record(&records[1]).unwrap();
        sync_data(&mut earlier);
        drop(earlier);

        // Leave a valid uncheckpointed record, corrupt log tail and invalid
        // index suffix. The checkpoint's first entry remains trustworthy.
        let mut bytes = storage.log(file_id).unwrap();
        bytes.extend_from_slice(&[1, 2, 3]);
        storage.store_pair(file_id, &bytes, Some(&[16, 0, 0, 0, 0, 0, 0, 0, 255]));
        let initialized = storage.initialize(stream()).unwrap();
        let end = Some(end_at(records[1].id(), 35));
        let mut writer = IndexedLogWriter::from(initialized);
        assert_eq!(writer.file_id(), file_id);
        assert_eq!(writer.record_count(), 2);
        assert_eq!(writer.expected_record_id(), records[2].id());
        assert_eq!(writer.buffered_end(), end);
        assert_eq!(writer.flushed_end(), end);
        assert_eq!(writer.synced_end(), end);
        assert!(!writer.is_full());
        // A duplicate stays rejected without disturbing recovered progress.
        assert!(matches!(writer.write_record(&records[1]),
            Err(IndexedLogWriteError::UnexpectedRecordId { expected, actual })
                if expected == records[2].id() && actual == records[1].id()));
        assert_eq!(writer.synced_end(), end);
        assert_eq!(writer.expected_record_id(), records[2].id());
        let outcome = writer.write_record(&records[2]).unwrap();
        assert_eq!(outcome.end(), end_at(records[2].id(), 52));
        assert!(!outcome.file_full());
        assert_eq!(writer.expected_record_id(), id(first_sequence + 3));
        flush(&mut writer);
        let appended_end = Some(end_at(records[2].id(), 52));
        assert_eq!(writer.record_count(), 3);
        assert_eq!(writer.buffered_end(), appended_end);
        assert_eq!(writer.flushed_end(), appended_end);
        assert_eq!(writer.synced_end(), end);
        sync_data(&mut writer);
        assert_eq!(writer.synced_end(), appended_end);
        let (log, index) = writer.into_inner();
        assert_eq!(log.cursor, 52);
        assert_eq!(index.cursor, 24);
        let expected: Vec<_> = records
            .iter()
            .flat_map(|record| record.as_bytes().iter().copied())
            .collect();
        assert_eq!(storage.log(file_id).unwrap(), expected);
        assert_eq!(
            storage.index(file_id).unwrap(),
            [
                16, 0, 0, 0, 0, 0, 0, 0, 35, 0, 0, 0, 0, 0, 0, 0, 52, 0, 0, 0, 0, 0, 0, 0
            ]
        );
        assert_eq!(storage.checkpoint, end.map(StreamCheckpoint::new));
    }
}

#[test]
fn initialized_successor_keeps_the_previous_files_checkpoint_out_of_writer_progress() {
    let mut storage = Storage::default();
    let first = file_id(0);
    let (log, index) = storage.create_log_and_index(first).unwrap();
    let mut earlier = IndexedLogWriter::new(first, log, index);
    let records = records(0, &vec![0; 100_001]);
    for record in &records[..100_000] {
        earlier.write_record(record).unwrap();
    }
    sync_data(&mut earlier);
    let checkpoint = StreamCheckpoint::new(earlier.finalize().unwrap());
    storage.checkpoint = Some(checkpoint);
    drop(earlier);

    let initialized = storage.initialize(stream()).unwrap();
    let mut writer = IndexedLogWriter::from(initialized);
    assert_eq!(writer.file_id(), first.next());
    assert_eq!(writer.record_count(), 0);
    assert_eq!(writer.expected_record_id(), id(100_000));
    assert_eq!(writer.buffered_end(), None);
    assert_eq!(writer.flushed_end(), None);
    assert_eq!(writer.synced_end(), None);
    assert!(!writer.is_full());
    let record = &records[100_000];
    let outcome = writer.write_record(record).unwrap();
    assert_eq!(outcome.end(), end_at(record.id(), 16));
    assert!(!outcome.file_full());
    assert_eq!(writer.expected_record_id(), id(100_001));
    sync_data(&mut writer);
    assert_eq!(writer.record_count(), 1);
    assert_eq!(writer.synced_end(), Some(end_at(record.id(), 16)));
    assert_eq!(storage.log(first.next()).unwrap(), record.as_bytes());
    assert_eq!(
        storage.index(first.next()).unwrap(),
        [16, 0, 0, 0, 0, 0, 0, 0]
    );
    assert_eq!(storage.checkpoint, Some(checkpoint));
}
