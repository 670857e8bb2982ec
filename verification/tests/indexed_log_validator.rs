use std::cell::{Cell, RefCell};
use std::collections::VecDeque;
use std::rc::Rc;

use transaction_log::file::{FileReply, FileRequest};
use transaction_log::index_writer::IndexWriteError;
use transaction_log::indexed_log_validator::validator_state::ValidationResult;
use transaction_log::indexed_log_validator::{
    CompletedIndexedLog, IndexedLogValidator, LogTailError, LogValidationError,
    LogValidationReport, SuffixFindings, SuffixScan,
};
use transaction_log::indexed_log_writer::{IndexedLogWriteError, IndexedLogWriter, PairOutput};
use transaction_log::io_error::{IoError, IoErrorKind};
use transaction_log::location::{LogFileId, LogFilePosition, RecordEndLocation};
use transaction_log::record::{
    Record, RecordHeader, RecordId, RecordLength, RecordOutputError, RecordReadError,
    SequenceNumber, StreamId,
};
use transaction_log::storage::{StorageError, StoragePath};
use transaction_log::validation::{PairRequest, ScanRequest};

#[derive(Clone, Copy, Debug, PartialEq, Eq)]
enum Operation {
    Length,
    Truncate(u64),
    Write(usize),
    Flush,
    Sync,
}

/// Fails or holds up one of a file's operations.
#[derive(Default)]
struct Probe {
    bytes_written: Cell<usize>,
    fail_at: Option<Operation>,
    pause_at: Option<Operation>,
}

type Contents = Rc<RefCell<Vec<u8>>>;

/// A handle on contents in memory.
#[derive(Clone)]
struct TestFile {
    contents: Contents,
    cursor: usize,
    readable: bool,
    writable: bool,
    probe: Rc<Probe>,
}

fn contents(bytes: &[u8]) -> Contents {
    Rc::new(RefCell::new(bytes.to_vec()))
}

fn os_error(code: i32) -> IoError {
    IoError::new(IoErrorKind::Other, Some(code), "scripted".to_string())
}

impl TestFile {
    fn open(contents: &Contents) -> TestFile {
        TestFile {
            contents: Rc::clone(contents),
            cursor: 0,
            readable: true,
            writable: true,
            probe: Rc::new(Probe::default()),
        }
    }

    /// Performs one request; none when it does not finish.
    fn perform(&mut self, request: FileRequest, offered: &[u8]) -> Option<FileReply> {
        let operation = match request {
            FileRequest::Length => Some(Operation::Length),
            FileRequest::SetLen(length) => Some(Operation::Truncate(length)),
            FileRequest::Write => Some(Operation::Write(self.probe.bytes_written.get())),
            FileRequest::Flush => Some(Operation::Flush),
            FileRequest::SyncData => Some(Operation::Sync),
            _ => None,
        };
        if let Some(operation) = operation {
            if self.probe.pause_at == Some(operation) {
                return None;
            }
            if self.probe.fail_at == Some(operation) {
                return Some(FileReply::Failed(os_error(123)));
            }
        }
        let writes = matches!(request, FileRequest::SetLen(_) | FileRequest::Write);
        let reads = matches!(
            request,
            FileRequest::ReadExact(_) | FileRequest::ReadUpTo(_)
        );
        if (writes && !self.writable) || (reads && !self.readable) {
            return Some(FileReply::Failed(os_error(9)));
        }
        let mut bytes = self.contents.borrow_mut();
        let remaining = bytes.len().saturating_sub(self.cursor);
        let reply = match request {
            FileRequest::Length => FileReply::Length(bytes.len() as u64),
            FileRequest::SetLen(length) => {
                bytes.resize(length as usize, 0);
                FileReply::Done
            }
            FileRequest::Seek(offset) => {
                self.cursor = offset as usize;
                FileReply::Done
            }
            FileRequest::ReadExact(count) => {
                if remaining < count {
                    return Some(FileReply::Failed(IoError::new(
                        IoErrorKind::UnexpectedEof,
                        None,
                        "early end of file".to_string(),
                    )));
                }
                let start = self.cursor;
                self.cursor += count;
                FileReply::Bytes(bytes[start..start + count].to_vec())
            }
            FileRequest::ReadUpTo(limit) => {
                let count = remaining.min(limit as usize);
                let start = self.cursor;
                self.cursor += count;
                FileReply::Bytes(bytes[start..start + count].to_vec())
            }
            FileRequest::Write => {
                let count = offered.len();
                let end = self.cursor + count;
                if bytes.len() < end {
                    bytes.resize(end, 0);
                }
                bytes[self.cursor..end].copy_from_slice(&offered[..count]);
                self.cursor = end;
                self.probe
                    .bytes_written
                    .set(self.probe.bytes_written.get() + count);
                FileReply::Accepted(count)
            }
            FileRequest::Flush | FileRequest::SyncData => FileReply::Done,
        };
        Some(reply)
    }

    /// Reads everything behind the cursor.
    fn read_to_end(&mut self) -> Vec<u8> {
        let bytes = self.contents.borrow();
        let start = self.cursor.min(bytes.len());
        self.cursor = bytes.len();
        bytes[start..].to_vec()
    }
}

fn crc32c(bytes: &[u8]) -> u32 {
    let mut crc = u32::MAX;
    for byte in bytes {
        crc ^= u32::from(*byte);
        for _ in 0..8 {
            let mask = (crc & 1).wrapping_neg();
            crc = (crc >> 1) ^ (0x82f6_3b78 & mask);
        }
    }
    !crc
}

fn encode(id: RecordId, payload: &[u8]) -> Vec<u8> {
    let mut bytes = Vec::with_capacity(payload.len() + 16);
    bytes.extend_from_slice(&((payload.len() + 16) as u16).to_le_bytes());
    bytes.extend_from_slice(&id.stream_id().get().to_le_bytes());
    bytes.extend_from_slice(&id.sequence_number().get().to_le_bytes());
    bytes.extend_from_slice(payload);
    let checksum = crc32c(&bytes);
    bytes.extend_from_slice(&checksum.to_le_bytes());
    bytes
}

/// What a decoder's source does behind its bytes.
#[derive(Clone, Copy)]
enum AtEnd {
    Eof,
    Fail,
}

/// Decodes records in batches. Damage is reported behind the records before it.
struct Decoder {
    source: Vec<u8>,
    position: usize,
    chunk_size: usize,
    at_end: AtEnd,
    buffered: Vec<u8>,
    decoded: VecDeque<RecordHeader>,
    damage: Option<RecordReadError>,
}

impl Decoder {
    fn new(source: &[u8]) -> Decoder {
        Decoder {
            source: source.to_vec(),
            position: 0,
            chunk_size: 65_536,
            at_end: AtEnd::Eof,
            buffered: Vec::new(),
            decoded: VecDeque::new(),
            damage: None,
        }
    }

    fn decode(&mut self) {
        let mut start = 0;
        while self.damage.is_none() {
            let bytes = &self.buffered[start..];
            if bytes.len() < 12 {
                break;
            }
            let declared = u16::from_le_bytes([bytes[0], bytes[1]]);
            let Ok(length) = RecordLength::new(u64::from(declared)) else {
                self.damage = Some(RecordReadError::InvalidLength {
                    declared: u64::from(declared),
                    description: format!("length {declared} is outside 16 through 65535"),
                });
                break;
            };
            let stream = u16::from_le_bytes([bytes[2], bytes[3]]);
            let Ok(stream) = StreamId::new(stream) else {
                self.damage = Some(RecordReadError::InvalidStreamId {
                    description: format!("stream {stream} is above 4095"),
                });
                break;
            };
            let length_in_bytes = length.get() as usize;
            if bytes.len() < length_in_bytes {
                break;
            }
            let (content, checksum) = bytes[..length_in_bytes].split_at(length_in_bytes - 4);
            let expected = crc32c(content);
            if expected.to_le_bytes() != checksum {
                self.damage = Some(RecordReadError::CrcMismatch {
                    description: format!("checksum is not {expected:08x}"),
                });
                break;
            }
            let sequence = u64::from_le_bytes(bytes[4..12].try_into().unwrap());
            self.decoded.push_back(RecordHeader {
                id: RecordId::new(stream, SequenceNumber::new(sequence)),
                length,
            });
            start += length_in_bytes;
        }
        self.buffered.drain(..start);
    }

    /// Waits for a batch.
    fn wait(&mut self) -> Result<bool, RecordReadError> {
        loop {
            if let Some(damage) = self.damage.take() {
                return Err(damage);
            }
            self.decode();
            if !self.decoded.is_empty() {
                return Ok(true);
            }
            if self.damage.is_some() {
                continue;
            }
            if self.position < self.source.len() {
                let end = self.source.len().min(self.position + self.chunk_size);
                self.buffered
                    .extend_from_slice(&self.source[self.position..end]);
                self.position = end;
                continue;
            }
            return match self.at_end {
                AtEnd::Fail => Err(RecordReadError::Io(os_error(123))),
                AtEnd::Eof => match self.buffered.len() {
                    0 => Ok(false),
                    read @ 1..=11 => Err(RecordReadError::TruncatedHeader {
                        description: format!("{read} of 12 header bytes"),
                    }),
                    read => Err(RecordReadError::TruncatedRecord {
                        description: format!("record ends after {read} bytes"),
                    }),
                },
            };
        }
    }
}

type Validator = IndexedLogValidator<TestFile>;
type Writer = IndexedLogWriter<TestFile, TestFile>;

const INDEX: [u8; 24] = [
    16, 0, 0, 0, 0, 0, 0, 0, 35, 0, 0, 0, 0, 0, 0, 0, 52, 0, 0, 0, 0, 0, 0, 0,
];

fn id(stream: u16, sequence: u64) -> RecordId {
    RecordId::new(
        StreamId::new(stream).unwrap(),
        SequenceNumber::new(sequence),
    )
}

fn end_at(id: RecordId, position: u64) -> RecordEndLocation {
    RecordEndLocation::new(id, LogFilePosition::new(position))
}

fn encoded(stream: u16, first: u64, payload_lengths: &[usize]) -> Vec<u8> {
    payload_lengths
        .iter()
        .enumerate()
        .flat_map(|(offset, &length)| {
            encode(id(stream, first + offset as u64), &vec![0xa5; length])
        })
        .collect()
}

fn record(stream: u16, sequence: u64) -> Record {
    let id = id(stream, sequence);
    Record::new(id, encode(id, &[])).unwrap()
}

/// A log and its index, either of which may be absent.
struct Storage {
    log: Option<Contents>,
    index: Option<Contents>,
}

impl Storage {
    fn new(log: &[u8], index: Option<&[u8]>) -> Storage {
        Storage {
            log: Some(contents(log)),
            index: index.map(contents),
        }
    }

    fn open(
        &mut self,
        file_id: LogFileId,
        start: Option<RecordEndLocation>,
    ) -> Result<Validator, LogValidationError> {
        let opening = Validator::open(file_id, start)?;
        assert_eq!(opening.request(), PairRequest::OpenLog);
        let opening = opening.log_opened(match &self.log {
            Some(log) => Ok(TestFile::open(log)),
            None => Err(StorageError::Io {
                path: StoragePath::Log(file_id),
                source: IoError::new(IoErrorKind::NotFound, Some(2), "not found".to_string()),
                description: "log cannot be opened: not found".to_string(),
            }),
        })?;
        assert_eq!(opening.request(), PairRequest::OpenIndex);
        opening.index_opened(Ok(TestFile::open(
            self.index.get_or_insert_with(|| contents(&[])),
        )))
    }

    fn log_bytes(&self) -> Vec<u8> {
        self.log.as_ref().unwrap().borrow().clone()
    }

    fn index_bytes(&self) -> Vec<u8> {
        self.index.as_ref().unwrap().borrow().clone()
    }
}

fn scan_suffix(
    mut scan: SuffixScan,
    decoder: &mut Decoder,
) -> Result<SuffixFindings, RecordReadError> {
    loop {
        match scan.request() {
            ScanRequest::WaitToRead => {
                scan.waited(decoder.wait())?;
            }
            ScanRequest::TryReadNext => {
                scan.read(Ok(decoder.decoded.pop_front()))?;
            }
            ScanRequest::Finished => return Ok(scan.finish()),
        }
    }
}

/// Drives an operation; true when it has finished, false when it is held up.
fn drive(validator: &mut Validator, begun: ValidationResult) -> Result<bool, LogValidationError> {
    let mut result = begun;
    loop {
        let Some(request) = result? else {
            return Ok(true);
        };
        assert_eq!(validator.request(), Some(request));
        result = match request {
            PairRequest::Log(request) => match validator.log().perform(request, &[]) {
                None => return Ok(false),
                Some(reply) => validator.resume(reply),
            },
            PairRequest::Index(request) => {
                let (index, offered) = validator.index_destination();
                match index.perform(request, offered) {
                    None => return Ok(false),
                    Some(reply) => validator.resume(reply),
                }
            }
            PairRequest::ScanLog => {
                let limit = validator.scan_limit() as usize;
                let mut decoder = if validator.log().readable {
                    let mut bytes = validator.log().read_to_end();
                    bytes.truncate(limit);
                    Decoder::new(&bytes)
                } else {
                    let mut decoder = Decoder::new(&[]);
                    decoder.at_end = AtEnd::Fail;
                    decoder
                };
                let findings = scan_suffix(validator.scan(), &mut decoder);
                validator.scanned(findings)
            }
            _ => unreachable!(),
        };
    }
}

fn validate(validator: &mut Validator) -> Result<&LogValidationReport, LogValidationError> {
    let begun = validator.validate();
    assert!(drive(validator, begun)?);
    Ok(validator.report().unwrap())
}

fn repair_index(validator: &mut Validator) -> Result<(), LogValidationError> {
    let begun = validator.repair_index();
    assert!(drive(validator, begun)?);
    Ok(())
}

fn truncate_invalid_tail(validator: &mut Validator) -> Result<(), LogValidationError> {
    let begun = validator.truncate_invalid_tail();
    assert!(drive(validator, begun)?);
    Ok(())
}

fn into_writer(validator: Validator) -> Result<Writer, LogValidationError> {
    let mut handover = validator.into_writer()?;
    loop {
        let reply = match handover.request() {
            PairRequest::Log(request) => handover.log().perform(request, &[]),
            PairRequest::Index(request) => handover.index().perform(request, &[]),
            _ => return Ok(handover.finish()),
        };
        handover = handover.resume(reply.unwrap())?;
    }
}

fn into_completed(validator: Validator) -> Result<CompletedIndexedLog, LogValidationError> {
    let mut handover = validator.into_completed()?;
    loop {
        let reply = match handover.request() {
            PairRequest::Log(request) => handover.log().perform(request, &[]),
            PairRequest::Index(request) => handover.index().perform(request, &[]),
            _ => return Ok(handover.finish()),
        };
        handover = handover.resume(reply.unwrap())?;
    }
}

fn sync_data(writer: &mut Writer) {
    let mut request = writer.sync_data().unwrap();
    while let Some(output) = request {
        let ((file, offered), operation) = match output {
            PairOutput::WriteLog => (writer.log_destination(), FileRequest::Write),
            PairOutput::FlushLog => (writer.log_destination(), FileRequest::Flush),
            PairOutput::SyncLog => (writer.log_destination(), FileRequest::SyncData),
            PairOutput::WriteIndex => (writer.index_destination(), FileRequest::Write),
            PairOutput::FlushIndex => (writer.index_destination(), FileRequest::Flush),
            PairOutput::SyncIndex => (writer.index_destination(), FileRequest::SyncData),
        };
        let accepted = match file.perform(operation, offered).unwrap() {
            FileReply::Accepted(accepted) => accepted,
            _ => 0,
        };
        request = writer.resume(Ok(accepted)).unwrap();
    }
}

#[test]
fn missing_log_does_not_create_index_and_empty_pair_becomes_a_writer() {
    let file_id = LogFileId::from_record_id(id(42, 100_000));
    let mut missing = Storage {
        log: None,
        index: None,
    };
    let Err(LogValidationError::Open(StorageError::Io { path, source, .. })) =
        missing.open(file_id, None)
    else {
        panic!("missing log must fail")
    };
    assert_eq!(path, StoragePath::Log(file_id));
    assert_eq!(source.kind(), IoErrorKind::NotFound);
    assert!(missing.index.is_none());
    let mut storage = Storage::new(&[], None);
    let mut validator = storage.open(file_id, None).unwrap();
    assert!(matches!(
        validator.repair_index(),
        Err(LogValidationError::NotValidated)
    ));
    assert!(matches!(
        validator.truncate_invalid_tail(),
        Err(LogValidationError::NotValidated)
    ));
    let report = validate(&mut validator).unwrap();
    assert_eq!(report.file_id(), file_id);
    assert_eq!(report.end(), None);
    assert_eq!(report.record_count(), 0);
    assert!(!report.needs_index_repair());
    assert!(report.tail_error().is_none());
    repair_index(&mut validator).unwrap();
    let mut writer = into_writer(validator).unwrap();
    writer.write_record(&record(42, 100_000)).unwrap();
    sync_data(&mut writer);
    assert_eq!(writer.synced_end(), Some(end_at(id(42, 100_000), 16)));
    assert_eq!(storage.index_bytes(), INDEX[..8]);
}

#[test]
fn an_index_that_cannot_be_opened_is_reported_with_its_path() {
    let file_id = LogFileId::from_record_id(id(7, 0));
    let opening = Validator::open(file_id, None).ok().unwrap();
    let log = TestFile::open(&contents(&[]));
    let opening = opening.log_opened(Ok(log)).ok().unwrap();
    let error = opening
        .index_opened(Err(StorageError::Io {
            path: StoragePath::Index(file_id),
            source: os_error(21),
            description: "index cannot be opened".to_string(),
        }))
        .err()
        .unwrap();
    assert!(matches!(
        error,
        LogValidationError::Open(StorageError::Io { path, source, .. })
            if path == StoragePath::Index(file_id) && source.raw_os_error() == Some(21)
    ));
}

#[test]
fn repairs_missing_partial_incorrect_and_excess_indexes_without_changing_log_bytes() {
    let file_id = LogFileId::from_record_id(id(42, 100_000));
    let log = encoded(42, 100_000, &[0, 3, 1]);
    let mut cases: Vec<(Option<Vec<u8>>, u64)> = (0..=24)
        .map(|length| (Some(INDEX[..length].to_vec()), (length / 8) as u64))
        .collect();
    cases.push((None, 0));
    let mut extra = INDEX.to_vec();
    extra.extend_from_slice(&[255; 11]);
    cases.push((Some(extra), 3));
    for entry in 0..3 {
        let mut wrong = INDEX.to_vec();
        wrong[entry * 8] ^= 1;
        cases.push((Some(wrong), entry as u64));
    }
    for (initial, matching) in cases {
        let mut storage = Storage::new(&log, initial.as_deref());
        let mut validator = storage.open(file_id, None).unwrap();
        let report = validate(&mut validator).unwrap();
        assert_eq!(report.end(), Some(end_at(id(42, 100_002), 52)));
        assert_eq!(report.record_count(), 3);
        assert_eq!(report.matching_index_entries(), matching);
        assert!(report.tail_error().is_none());
        assert_eq!(storage.index_bytes(), initial.clone().unwrap_or_default());
        repair_index(&mut validator).unwrap();
        repair_index(&mut validator).unwrap(); // Completed repair is idempotent.
        assert_eq!(storage.index_bytes(), INDEX);
        assert_eq!(storage.log_bytes(), log);
        assert_eq!(
            validator.report().unwrap().index_length(),
            initial.map_or(0, |bytes| bytes.len() as u64)
        );
        let mut writer = into_writer(validator).unwrap();
        assert_eq!(writer.synced_end(), writer.buffered_end());
        writer.write_record(&record(42, 100_003)).unwrap();
        sync_data(&mut writer);
        let output = storage.log_bytes();
        assert_eq!(&output[..52], log);
        assert_eq!(output.len(), 68);
        assert_eq!(&storage.index_bytes()[24..], &[68, 0, 0, 0, 0, 0, 0, 0]);
    }
}

#[test]
fn supplied_boundary_skips_trusted_records_and_repairs_only_its_index_suffix() {
    let file_id = LogFileId::from_record_id(id(7, 0));
    let mut log = encoded(7, 0, &[0, 3, 1]);
    // Deliberately bad CRC in the supplied trusted prefix: this proves the
    // caller's boundary is honored, not recomputed by rescanning old records.
    log[12] ^= 1;
    let mut storage = Storage::new(&log, Some(&INDEX[..16]));
    let start = end_at(id(7, 1), 35);
    let mut validator = storage.open(file_id, Some(start)).unwrap();
    let report = validate(&mut validator).unwrap();
    assert_eq!(report.record_count(), 3);
    assert_eq!(report.matching_index_entries(), 2);
    assert_eq!(report.end(), Some(end_at(id(7, 2), 52)));
    assert!(report.tail_error().is_none());
    let scan = SuffixScan::new(file_id, Some(start));
    let findings = scan_suffix(scan, &mut Decoder::new(&log[35..])).ok().unwrap();
    assert_eq!(findings.into_parts().0, [52]);
    repair_index(&mut validator).unwrap();
    assert_eq!(storage.index_bytes(), INDEX);
    assert_eq!(storage.log_bytes(), log);
}

#[test]
fn invalid_start_and_unusable_trusted_index_never_authorize_repairs() {
    let file_id = LogFileId::from_record_id(id(7, 0));
    let log = encoded(7, 0, &[0, 3, 1]);
    let mut storage = Storage::new(&log, Some(&INDEX));
    for wrong_id in [id(8, 0), id(7, 100_000)] {
        assert!(matches!(
            storage.open(file_id, Some(end_at(wrong_id, 16))).err(),
            Some(LogValidationError::InvalidStart(_))
        ));
    }
    for position in [0, 15, 53, 65_536] {
        let mut validator = storage
            .open(file_id, Some(end_at(id(7, 0), position)))
            .unwrap();
        assert!(matches!(
            validate(&mut validator).err(),
            Some(LogValidationError::InvalidStart(_))
        ));
        assert!(matches!(
            validator.repair_index(),
            Err(LogValidationError::Unusable)
        ));
        assert!(matches!(
            validator.truncate_invalid_tail(),
            Err(LogValidationError::Unusable)
        ));
    }
    for index in [
        None,
        Some(INDEX[..15].to_vec()),
        Some([16, 0, 0, 0, 0, 0, 0, 0, 34, 0, 0, 0, 0, 0, 0, 0].to_vec()),
        Some(vec![255; 16]),
    ] {
        let mut storage = Storage::new(&log, index.as_deref());
        let mut validator = storage
            .open(file_id, Some(end_at(id(7, 1), 35)))
            .unwrap();
        assert!(matches!(
            validate(&mut validator).err(),
            Some(LogValidationError::TrustedIndexUnavailable)
        ));
        assert!(validator.report().is_none());
        assert!(matches!(
            validator.truncate_invalid_tail(),
            Err(LogValidationError::Unusable)
        ));
        assert_eq!(storage.log_bytes(), log);
        assert_eq!(storage.index_bytes(), index.unwrap_or_default());
    }
}

#[test]
fn corrupt_or_truncated_batch_tail_preserves_every_preceding_complete_record() {
    let file_id = LogFileId::from_record_id(id(7, 0));
    let log = encoded(7, 0, &[0, 3, 1]);
    let mut cases: Vec<Vec<u8>> = (36..52).map(|length| log[..length].to_vec()).collect();
    for change in [0, 2, 16] {
        let mut corrupt = log.clone();
        match change {
            0 => corrupt[35..37].copy_from_slice(&0u16.to_le_bytes()),
            2 => corrupt[37..39].copy_from_slice(&4096u16.to_le_bytes()),
            _ => corrupt[51] ^= 1,
        }
        // Even valid later records cannot be recovered across a corrupt gap.
        corrupt.extend_from_slice(&encoded(7, 3, &[0]));
        cases.push(corrupt);
    }
    for corrupt in cases {
        let mut storage = Storage::new(&corrupt, Some(&INDEX));
        let mut refused = storage.open(file_id, None).unwrap();
        validate(&mut refused).unwrap();
        assert!(matches!(
            refused.into_writer().err(),
            Some(LogValidationError::LogRepairRequired)
        ));
        let mut validator = storage.open(file_id, None).unwrap();
        let report = validate(&mut validator).unwrap();
        assert_eq!(report.end(), Some(end_at(id(7, 1), 35)));
        assert_eq!(report.record_count(), 2);
        assert!(matches!(report.tail_error(), Some(LogTailError::Record(_))));
        repair_index(&mut validator).unwrap();
        assert_eq!(storage.log_bytes(), corrupt);
        assert_eq!(storage.index_bytes(), INDEX[..16]);
        truncate_invalid_tail(&mut validator).unwrap();
        truncate_invalid_tail(&mut validator).unwrap();
        assert_eq!(storage.log_bytes(), log[..35]);
        assert_eq!(
            validator.report().unwrap().log_length(),
            corrupt.len() as u64
        );
        assert!(validator.report().unwrap().tail_error().is_some());
        let mut writer = into_writer(validator).unwrap();
        writer.write_record(&record(7, 2)).unwrap();
        sync_data(&mut writer);
        assert_eq!(writer.synced_end(), Some(end_at(id(7, 2), 51)));
    }
}

#[test]
fn sequence_or_stream_errors_win_over_later_encoding_corruption() {
    let file_id = LogFileId::from_record_id(id(7, 0));
    for actual in [id(8, 1), id(7, 0), id(7, 2)] {
        let mut log = encoded(7, 0, &[0]);
        log.extend_from_slice(&encode(actual, &[]));
        log.extend_from_slice(&encoded(7, 2, &[0]));
        *log.last_mut().unwrap() ^= 1;
        let mut storage = Storage::new(&log, None);
        let mut validator = storage.open(file_id, None).unwrap();
        let report = validate(&mut validator).unwrap();
        assert_eq!(report.record_count(), 1);
        assert_eq!(report.valid_log_length(), 16);
        assert!(
            matches!(report.tail_error(), Some(LogTailError::UnexpectedRecordId { expected, actual: found })
            if *expected == id(7, 1) && *found == actual)
        );
        // Explicit log repair covers any necessary index repair first.
        truncate_invalid_tail(&mut validator).unwrap();
        assert_eq!(storage.index_bytes(), INDEX[..8]);
    }
}

#[test]
fn full_files_repair_and_handover_as_completion_without_an_append_writer() {
    let file_id = LogFileId::from_record_id(id(9, 0));
    let mut log = encoded(9, 0, &vec![0; 100_000]);
    log.extend_from_slice(&[0, 1, 2]);
    let mut storage = Storage::new(&log, Some(&INDEX[..8]));
    let mut validator = storage.open(file_id, None).unwrap();
    let report = validate(&mut validator).unwrap();
    assert!(report.is_full());
    assert!(matches!(report.tail_error(), Some(LogTailError::ExtraData)));
    assert_eq!(report.end(), Some(end_at(id(9, 99_999), 1_600_000)));
    truncate_invalid_tail(&mut validator).unwrap();
    let completed = into_completed(validator).unwrap();
    assert_eq!(completed.file_id(), file_id);
    assert_eq!(completed.end(), end_at(id(9, 99_999), 1_600_000));
    let index = storage.index_bytes();
    assert_eq!(index.len(), 800_000);
    assert_eq!(&index[799_992..], &[0, 106, 24, 0, 0, 0, 0, 0]);
    for (ordinal, entry) in index.chunks_exact(8).enumerate() {
        assert_eq!(
            u64::from_le_bytes(entry.try_into().unwrap()),
            (ordinal as u64 + 1) * 16
        );
    }
    assert_eq!(storage.log_bytes().len(), 1_600_000);

    // A supplied full-file boundary needs no successor or log scan.
    let mut validator = storage.open(file_id, Some(completed.end())).unwrap();
    validator.log().readable = false;
    assert!(validate(&mut validator).unwrap().is_full());
    assert!(matches!(
        validator.into_writer().err(),
        Some(LogValidationError::Full)
    ));
    let mut validator = storage.open(file_id, Some(completed.end())).unwrap();
    validate(&mut validator).unwrap();
    assert_eq!(into_completed(validator).unwrap(), completed);
}

#[test]
fn handover_requires_validation_index_repair_and_correct_fullness() {
    let file_id = LogFileId::from_record_id(id(7, 0));
    let mut storage = Storage::new(&encoded(7, 0, &[0]), None);
    let validator = storage.open(file_id, None).unwrap();
    assert!(matches!(
        validator.into_writer().err(),
        Some(LogValidationError::NotValidated)
    ));
    let mut validator = storage.open(file_id, None).unwrap();
    validate(&mut validator).unwrap();
    assert!(matches!(
        validator.into_writer().err(),
        Some(LogValidationError::IndexRepairRequired)
    ));
    let mut validator = storage.open(file_id, None).unwrap();
    validate(&mut validator).unwrap();
    repair_index(&mut validator).unwrap();
    assert!(matches!(
        validator.into_completed().err(),
        Some(LogValidationError::NotFull)
    ));
}

#[test]
fn io_failures_and_external_length_changes_never_authorize_log_truncation() {
    let file_id = LogFileId::from_record_id(id(7, 0));
    let log = encoded(7, 0, &[0]);
    let mut storage = Storage::new(&log, None);
    let mut validator = storage.open(file_id, None).unwrap();
    validator.log().readable = false;
    assert!(matches!(
        validate(&mut validator).err(),
        Some(LogValidationError::Read(RecordReadError::Io(_)))
    ));
    assert!(validator.report().is_none());
    assert!(matches!(
        validator.truncate_invalid_tail(),
        Err(LogValidationError::Unusable)
    ));

    let mut validator = storage.open(file_id, None).unwrap();
    validate(&mut validator).unwrap();
    validator.index_destination().0.writable = false;
    assert!(matches!(
        repair_index(&mut validator),
        Err(LogValidationError::IndexIo(_) | LogValidationError::IndexWrite(_))
    ));
    assert!(matches!(
        validator.truncate_invalid_tail(),
        Err(LogValidationError::Unusable)
    ));
    assert!(validator.report().unwrap().tail_error().is_none());
    assert_eq!(storage.log_bytes(), log);

    let mut validator = storage.open(file_id, None).unwrap();
    validate(&mut validator).unwrap();
    *storage.index.as_ref().unwrap().borrow_mut() = vec![1, 2, 3];
    assert!(matches!(
        repair_index(&mut validator),
        Err(LogValidationError::FilesChanged)
    ));
    assert!(matches!(
        validator.truncate_invalid_tail(),
        Err(LogValidationError::Unusable)
    ));
    assert_eq!(storage.log_bytes(), log);
}

#[test]
fn every_failed_operation_reports_its_file_and_ends_the_validator() {
    let file_id = LogFileId::from_record_id(id(7, 0));
    let log = encoded(7, 0, &[0]);
    let failing = |operation| {
        Rc::new(Probe {
            fail_at: Some(operation),
            ..Probe::default()
        })
    };
    let code = |error: &IoError| error.raw_os_error() == Some(123);

    let mut storage = Storage::new(&log, None);
    let mut validator = storage.open(file_id, None).unwrap();
    validator.log().probe = failing(Operation::Length);
    assert!(matches!(
        validate(&mut validator).err(),
        Some(LogValidationError::LogIo(error)) if code(&error)
    ));
    assert!(matches!(
        validator.validate(),
        Err(LogValidationError::Unusable)
    ));

    let mut validator = storage.open(file_id, None).unwrap();
    validator.index_destination().0.probe = failing(Operation::Length);
    assert!(matches!(
        validate(&mut validator).err(),
        Some(LogValidationError::IndexIo(error)) if code(&error)
    ));

    let mut validator = storage.open(file_id, None).unwrap();
    validate(&mut validator).unwrap();
    validator.index_destination().0.probe = failing(Operation::Write(0));
    assert!(matches!(
        repair_index(&mut validator).err(),
        Some(LogValidationError::IndexWrite(_))
    ));
    assert!(matches!(
        validator.into_writer().err(),
        Some(LogValidationError::Unusable)
    ));

    let mut storage = Storage::new(&[log.as_slice(), &[0xaa]].concat(), Some(&INDEX[..8]));
    let mut validator = storage.open(file_id, None).unwrap();
    validate(&mut validator).unwrap();
    validator.log().probe = failing(Operation::Truncate(16));
    assert!(matches!(
        truncate_invalid_tail(&mut validator).err(),
        Some(LogValidationError::LogIo(error)) if code(&error)
    ));
    assert_eq!(storage.log_bytes().len(), 17);

    let mut storage = Storage::new(&log, Some(&INDEX[..8]));
    let mut validator = storage.open(file_id, None).unwrap();
    validate(&mut validator).unwrap();
    validator.log().probe = failing(Operation::Sync);
    assert!(matches!(
        into_writer(validator).err(),
        Some(LogValidationError::Writer(IndexedLogWriteError::Log(
            RecordOutputError::Io(error)
        ))) if code(&error)
    ));
}

#[test]
fn read_error_after_good_records_is_operational_not_a_corrupt_tail() {
    let file_id = LogFileId::from_record_id(id(7, 0));
    let mut decoder = Decoder::new(&encoded(7, 0, &[0, 3]));
    decoder.at_end = AtEnd::Fail;
    let result = scan_suffix(SuffixScan::new(file_id, None), &mut decoder);
    assert!(
        matches!(result, Err(RecordReadError::Io(error)) if error.raw_os_error() == Some(123))
    );
}

#[test]
fn suffix_findings_do_not_depend_on_read_fragmentation() {
    let file_id = LogFileId::from_record_id(id(7, 0));
    let mut bytes = encoded(7, 0, &[0, 3, 1]);
    bytes[51] ^= 1;
    for chunk_size in [1, 2, 7, 12, 16, 35, 65_536] {
        let mut decoder = Decoder::new(&bytes);
        decoder.chunk_size = chunk_size;
        let findings = scan_suffix(SuffixScan::new(file_id, None), &mut decoder)
            .ok()
            .unwrap();
        let (ends, tail_error) = findings.into_parts();
        assert_eq!(ends, [16, 35]);
        assert!(matches!(
            tail_error,
            Some(LogTailError::Record(RecordReadError::CrcMismatch { .. }))
        ));
    }
}

#[test]
fn maximum_records_cross_batches_and_preserve_the_exact_corruption_boundary() {
    let file_id = LogFileId::from_record_id(id(7, 0));
    let mut bytes = encoded(7, 0, &[65_519, 65_519, 65_519]);
    *bytes.last_mut().unwrap() ^= 1;
    let mut storage = Storage::new(&bytes, None);
    let mut validator = storage.open(file_id, None).unwrap();
    let report = validate(&mut validator).unwrap();
    assert_eq!(report.end(), Some(end_at(id(7, 1), 131_070)));
    assert_eq!(report.record_count(), 2);
    assert!(matches!(
        report.tail_error(),
        Some(LogTailError::Record(RecordReadError::CrcMismatch { .. }))
    ));
    truncate_invalid_tail(&mut validator).unwrap();
    assert_eq!(
        storage.index_bytes(),
        [255, 255, 0, 0, 0, 0, 0, 0, 254, 255, 1, 0, 0, 0, 0, 0]
    );
    let writer = into_writer(validator).unwrap();
    assert_eq!(writer.synced_end(), Some(end_at(id(7, 1), 131_070)));
}

#[test]
fn an_empty_log_removes_stale_index_entries_without_creating_a_sentinel() {
    let file_id = LogFileId::from_record_id(id(7, 0));
    let mut storage = Storage::new(&[], Some(&INDEX));
    let mut validator = storage.open(file_id, None).unwrap();
    let report = validate(&mut validator).unwrap();
    assert_eq!(report.end(), None);
    assert!(report.needs_index_repair());
    repair_index(&mut validator).unwrap();
    assert!(storage.index_bytes().is_empty());
    let writer = into_writer(validator).unwrap();
    assert_eq!(writer.synced_end(), None);
    assert_eq!(writer.record_count(), 0);
}

#[test]
fn corruption_before_the_first_record_requires_explicit_repair_to_an_empty_pair() {
    let file_id = LogFileId::from_record_id(id(7, 100_000));
    let mut log = vec![0; 12];
    log.extend_from_slice(&encoded(7, 100_000, &[0]));
    let mut storage = Storage::new(&log, Some(&INDEX));
    let mut refused = storage.open(file_id, None).unwrap();
    validate(&mut refused).unwrap();
    assert!(matches!(
        refused.into_writer().err(),
        Some(LogValidationError::LogRepairRequired)
    ));
    let mut validator = storage.open(file_id, None).unwrap();
    let report = validate(&mut validator).unwrap();
    assert_eq!(report.end(), None);
    assert_eq!(report.record_count(), 0);
    assert!(matches!(
        report.tail_error(),
        Some(LogTailError::Record(RecordReadError::InvalidLength {
            declared: 0,
            ..
        }))
    ));
    assert_eq!(storage.log_bytes(), log);
    truncate_invalid_tail(&mut validator).unwrap();
    assert!(storage.log_bytes().is_empty());
    assert!(storage.index_bytes().is_empty());
    let mut writer = into_writer(validator).unwrap();
    writer.write_record(&record(7, 100_000)).unwrap();
    sync_data(&mut writer);
    assert_eq!(writer.synced_end(), Some(end_at(id(7, 100_000), 16)));
}

#[test]
fn cancelled_validation_and_repairs_are_terminal_but_unpolled_futures_are_inert() {
    let file_id = LogFileId::from_record_id(id(7, 0));
    let mut bytes = encoded(7, 0, &[0, 3]);
    *bytes.last_mut().unwrap() ^= 1;
    for operation in 0..3 {
        let index = if operation == 1 { &[][..] } else { &INDEX[..8] };
        let mut storage = Storage::new(&bytes, Some(index));
        let mut validator = storage.open(file_id, None).unwrap();
        assert!(validator.report().is_none());
        assert_eq!(validator.request(), None);
        if operation != 0 {
            validate(&mut validator).unwrap();
        }
        // Hold up the operation's first length request.
        let paused = Rc::new(Probe {
            pause_at: Some(Operation::Length),
            ..Probe::default()
        });
        validator.log().probe = Rc::clone(&paused);
        validator.index_destination().0.probe = paused;
        let begun = match operation {
            0 => validator.validate(),
            1 => validator.repair_index(),
            _ => validator.truncate_invalid_tail(),
        };
        assert!(!drive(&mut validator, begun).unwrap());
        assert!(matches!(
            validator.validate(),
            Err(LogValidationError::Unusable)
        ));
        assert!(matches!(
            validator.repair_index(),
            Err(LogValidationError::Unusable)
        ));
        assert!(matches!(
            validator.truncate_invalid_tail(),
            Err(LogValidationError::Unusable)
        ));
        drop(validator.into_inner());
        assert_eq!(storage.log_bytes(), bytes);
        assert_eq!(storage.index_bytes(), index);
    }
}

#[test]
fn an_index_repair_alone_leaves_the_bad_tail_and_the_report_as_they_were() {
    let file_id = LogFileId::from_record_id(id(7, 0));
    let log = [encoded(7, 0, &[0, 3]), vec![0xaa; 5]].concat();
    let mut storage = Storage::new(&log, Some(&[16, 0, 0, 0, 0, 0, 0, 0, 9]));
    let mut validator = storage.open(file_id, None).unwrap();
    validate(&mut validator).unwrap();
    repair_index(&mut validator).unwrap();
    assert_eq!(storage.log_bytes(), log);
    assert_eq!(storage.index_bytes(), INDEX[..16]);
    let report = validator.report().unwrap();
    assert_eq!(report.log_length(), 40);
    assert_eq!(report.index_length(), 9);
    assert_eq!(report.matching_index_entries(), 1);
    assert!(matches!(
        validator.check_handover(),
        Err(LogValidationError::LogRepairRequired)
    ));
}

#[test]
fn validation_errors_show_what_failed() {
    let file_id = LogFileId::from_record_id(id(7, 0));
    let io = || os_error(5);
    for (error, text) in [
        (
            LogValidationError::Open(StorageError::Io {
                path: StoragePath::Log(file_id),
                source: io(),
                description: "log cannot be opened".to_string(),
            }),
            "log cannot be opened",
        ),
        (
            LogValidationError::InvalidStart("endpoint belongs to another file"),
            "invalid validation start: endpoint belongs to another file",
        ),
        (
            LogValidationError::TrustedIndexUnavailable,
            "trusted index prefix is unavailable or inconsistent; supply an earlier trusted boundary",
        ),
        (
            LogValidationError::LogIo(io()),
            "log file operation failed: scripted",
        ),
        (
            LogValidationError::IndexIo(io()),
            "index file operation failed: scripted",
        ),
        (
            LogValidationError::Read(RecordReadError::ReaderFailed {
                description: "reader has failed".to_string(),
            }),
            "record reading failed: reader has failed",
        ),
        (
            LogValidationError::IndexWrite(IndexWriteError::Unusable),
            "index writer is unusable after incomplete or failed output",
        ),
        (
            LogValidationError::Writer(IndexedLogWriteError::Full),
            "indexed log is full",
        ),
        (
            LogValidationError::FilesChanged,
            "file lengths changed during validation or before repair/handover",
        ),
        (
            LogValidationError::NotValidated,
            "validate the pair before repair or handover",
        ),
        (
            LogValidationError::Unusable,
            "validator is unusable after incomplete or failed I/O",
        ),
        (
            LogValidationError::IndexRepairRequired,
            "repair the index before handover",
        ),
        (
            LogValidationError::LogRepairRequired,
            "explicitly truncate the invalid log tail before handover",
        ),
        (
            LogValidationError::Full,
            "file is full; use into_completed",
        ),
        (
            LogValidationError::NotFull,
            "file is not full; use into_writer",
        ),
    ] {
        assert_eq!(error.message(), text);
    }
}

#[test]
fn a_report_asks_for_repair_exactly_of_a_wrong_index_and_outlasts_later_steps() {
    let file_id = LogFileId::from_record_id(id(42, 100_000));
    let log = [encoded(42, 100_000, &[0, 3, 1]), vec![0xaa; 5]].concat();
    let right = INDEX.to_vec();
    let wrong_entry = [&INDEX[..8], &[9; 8], &INDEX[16..]].concat();
    let excess = [&INDEX[..], &[0]].concat();
    for (index, matching) in [
        (right, 3),
        (INDEX[..16].to_vec(), 2),
        (wrong_entry, 1),
        (excess, 3),
    ] {
        for start in [None, Some(end_at(id(42, 100_000), 16))] {
            let mut storage = Storage::new(&log, Some(&index));
            let mut validator = storage.open(file_id, start).unwrap();
            validate(&mut validator).unwrap();
            truncate_invalid_tail(&mut validator).unwrap();
            let report = validator.report().unwrap();
            assert_eq!(report.needs_index_repair(), index != INDEX);
            assert_eq!(report.matching_index_entries(), matching);
            assert_eq!(report.index_length(), index.len() as u64);
            assert_eq!(report.log_length(), 57);
            assert!(matches!(
                report.tail_error(),
                Some(LogTailError::Record(RecordReadError::TruncatedHeader { description }))
                    if description == "5 of 12 header bytes"
            ));
            assert_eq!(storage.index_bytes(), INDEX);
            assert_eq!(storage.log_bytes(), log[..52]);
        }
    }

    let mut storage = Storage::new(&log, Some(&INDEX[..16]));
    let mut validator = storage.open(file_id, None).unwrap();
    validate(&mut validator).unwrap();
    storage.log.as_ref().unwrap().borrow_mut().push(0);
    assert!(matches!(
        repair_index(&mut validator),
        Err(LogValidationError::FilesChanged)
    ));
    let report = validator.report().unwrap();
    assert_eq!(report.log_length(), 57);
    assert_eq!(report.matching_index_entries(), 2);
    assert!(report.needs_index_repair());
}
