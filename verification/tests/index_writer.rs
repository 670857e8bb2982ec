use std::collections::VecDeque;

use transaction_log::index_writer::{IndexWriteError, IndexWriteResult, IndexWriter};
use transaction_log::io_error::{IoError, IoErrorKind};
use transaction_log::output::OutputRequest;

#[derive(Clone, Copy, Debug, PartialEq, Eq)]
enum Step {
    Write(usize),
    Flush,
    Sync,
    Interrupted,
    /// The operation does not finish now.
    Pending,
    Error,
    /// The operation is given up.
    Abandon,
    Zero,
}

#[derive(Default)]
struct ScriptedFile {
    bytes: Vec<u8>,
    calls: Vec<OutputRequest>,
    steps: VecDeque<Step>,
}

impl ScriptedFile {
    /// Performs one request; none when it does not finish.
    fn perform(&mut self, request: OutputRequest, offered: &[u8]) -> Option<Result<usize, IoError>> {
        self.calls.push(request);
        match self.steps.pop_front().expect("unexpected file operation") {
            Step::Write(limit) => {
                assert_eq!(request, OutputRequest::Write);
                let count = offered.len().min(limit);
                self.bytes.extend_from_slice(&offered[..count]);
                Some(Ok(count))
            }
            Step::Flush => {
                assert_eq!(request, OutputRequest::Flush);
                Some(Ok(0))
            }
            Step::Sync => {
                assert_eq!(request, OutputRequest::SyncData);
                Some(Ok(0))
            }
            Step::Interrupted => Some(Err(IoError::new(
                IoErrorKind::Interrupted,
                None,
                "interrupted".to_string(),
            ))),
            Step::Pending | Step::Abandon => None,
            Step::Error => Some(Err(IoError::new(
                IoErrorKind::Other,
                Some(123),
                "scripted".to_string(),
            ))),
            Step::Zero => {
                assert_eq!(request, OutputRequest::Write);
                Some(Ok(0))
            }
        }
    }
}

#[derive(Debug)]
enum Outcome {
    Done,
    Pending(OutputRequest),
    Failed(IndexWriteError),
}

fn drive(writer: &mut IndexWriter<ScriptedFile>, begun: IndexWriteResult) -> Outcome {
    let mut result = begun;
    loop {
        match result {
            Ok(None) => return Outcome::Done,
            Err(error) => return Outcome::Failed(error),
            Ok(Some(request)) => {
                let (file, offered) = writer.destination();
                match file.perform(request, offered) {
                    None => return Outcome::Pending(request),
                    Some(reply) => result = writer.resume(reply),
                }
            }
        }
    }
}

fn perform(writer: &mut IndexWriter<ScriptedFile>, operation: OutputRequest) -> Outcome {
    let begun = match operation {
        OutputRequest::Write => writer.flush_buffer(),
        OutputRequest::Flush => writer.flush(),
        OutputRequest::SyncData => writer.sync_data(),
    };
    drive(writer, begun)
}

fn send(writer: &mut IndexWriter<ScriptedFile>) -> Outcome {
    perform(writer, OutputRequest::Write)
}

fn writer(steps: &[Step]) -> IndexWriter<ScriptedFile> {
    IndexWriter::with_file(ScriptedFile {
        steps: steps.iter().copied().collect(),
        ..ScriptedFile::default()
    })
}

#[test]
fn encodes_literal_offsets_synchronously_and_reuses_the_batch_allocation() {
    let mut writer = writer(&[Step::Write(usize::MAX), Step::Write(usize::MAX)]);
    for end in [0, 16, 0x0102_0304_0506_0708, u64::MAX] {
        writer.write(end).unwrap();
    }
    let expected = [
        0, 0, 0, 0, 0, 0, 0, 0, 16, 0, 0, 0, 0, 0, 0, 0, 8, 7, 6, 5, 4, 3, 2, 1, 255, 255, 255,
        255, 255, 255, 255, 255,
    ];
    assert_eq!(writer.unsent(), expected);
    assert!(writer.get_ref().calls.is_empty());
    let pointer = writer.unsent().as_ptr();
    assert!(matches!(send(&mut writer), Outcome::Done));
    assert_eq!(writer.get_ref().bytes, expected);
    assert!(writer.unsent().is_empty());
    assert_eq!(writer.unsent().as_ptr(), pointer);
    writer.write(35).unwrap();
    assert!(matches!(send(&mut writer), Outcome::Done));
    assert_eq!(&writer.get_ref().bytes[32..], &[35, 0, 0, 0, 0, 0, 0, 0]);
    assert_eq!(writer.unsent().as_ptr(), pointer);
    assert!(writer.get_ref().steps.is_empty());
}

#[test]
fn buffer_output_file_flush_and_sync_are_separate_and_unpolled_futures_are_inert() {
    let mut writer = writer(&[
        Step::Flush,
        Step::Sync,
        Step::Write(usize::MAX),
        Step::Flush,
        Step::Sync,
    ]);
    assert!(matches!(send(&mut writer), Outcome::Done));
    assert!(writer.get_ref().calls.is_empty());
    writer.write(16).unwrap();
    assert!(writer.get_ref().calls.is_empty());
    assert!(matches!(perform(&mut writer, OutputRequest::Flush), Outcome::Done));
    assert!(matches!(perform(&mut writer, OutputRequest::SyncData), Outcome::Done));
    assert!(writer.get_ref().bytes.is_empty());
    assert_eq!(writer.unsent().len(), 8);
    assert!(matches!(send(&mut writer), Outcome::Done));
    assert_eq!(
        writer.get_ref().calls,
        [
            OutputRequest::Flush,
            OutputRequest::SyncData,
            OutputRequest::Write
        ]
    );
    assert!(matches!(perform(&mut writer, OutputRequest::Flush), Outcome::Done));
    assert!(matches!(perform(&mut writer, OutputRequest::SyncData), Outcome::Done));
    assert_eq!(
        writer.get_ref().calls,
        [
            OutputRequest::Flush,
            OutputRequest::SyncData,
            OutputRequest::Write,
            OutputRequest::Flush,
            OutputRequest::SyncData
        ]
    );
    assert!(writer.get_ref().steps.is_empty());
}

#[test]
fn short_interrupted_and_pending_writes_resume_inside_and_across_entries() {
    let mut writer = writer(&[
        Step::Interrupted,
        Step::Interrupted,
        Step::Write(3),
        Step::Pending,
        Step::Interrupted,
        Step::Write(6),
        Step::Pending,
        Step::Write(usize::MAX),
    ]);
    writer.write(16).unwrap();
    writer.write(35).unwrap();
    let Outcome::Pending(request) = send(&mut writer) else {
        panic!("expected a pending write");
    };
    assert_eq!(writer.get_ref().bytes, [16, 0, 0]);
    let Outcome::Pending(request) = drive(&mut writer, Ok(Some(request))) else {
        panic!("expected a pending write");
    };
    assert_eq!(writer.get_ref().bytes, [16, 0, 0, 0, 0, 0, 0, 0, 35]);
    assert!(matches!(drive(&mut writer, Ok(Some(request))), Outcome::Done));
    writer.write(52).unwrap();
    assert_eq!(writer.unsent(), [52, 0, 0, 0, 0, 0, 0, 0]);
    assert_eq!(
        writer.get_ref().bytes,
        [16, 0, 0, 0, 0, 0, 0, 0, 35, 0, 0, 0, 0, 0, 0, 0]
    );
    assert!(writer.get_ref().steps.is_empty());
}

#[test]
fn failures_cancellation_and_panics_reject_every_later_operation_without_replay() {
    for operation in [
        OutputRequest::Write,
        OutputRequest::Flush,
        OutputRequest::SyncData,
    ] {
        for fault in [Step::Error, Step::Pending, Step::Abandon] {
            // Check every incomplete output prefix of two entries, including
            // the boundary between them. Flush/sync do not send this batch.
            let prefixes = if operation == OutputRequest::Write {
                0..16
            } else {
                0..1
            };
            for prefix in prefixes {
                let mut writer = writer(&[Step::Write(usize::MAX), Step::Flush, Step::Sync]);
                writer.write(16).unwrap();
                assert!(matches!(send(&mut writer), Outcome::Done));
                assert!(matches!(perform(&mut writer, OutputRequest::Flush), Outcome::Done));
                assert!(matches!(perform(&mut writer, OutputRequest::SyncData), Outcome::Done));
                writer.write(35).unwrap();
                writer.write(52).unwrap();
                let pending_bytes = writer.unsent().to_vec();
                {
                    let (file, _) = writer.destination();
                    if prefix > 0 {
                        file.steps.push_back(Step::Write(prefix));
                    }
                    file.steps.push_back(fault);
                }
                let outcome = perform(&mut writer, operation);
                match fault {
                    Step::Error => {
                        let Outcome::Failed(IndexWriteError::Io(error)) = outcome else {
                            panic!("expected the I/O error at {operation:?} / {prefix}");
                        };
                        assert_eq!(error.raw_os_error(), Some(123));
                        assert_eq!(error.description, "scripted");
                    }
                    _ => assert!(matches!(outcome, Outcome::Pending(_))),
                }
                assert_eq!(
                    &writer.get_ref().bytes[8..],
                    &pending_bytes[..prefix]
                );
                let calls = writer.get_ref().calls.len();
                assert!(matches!(writer.write(99), Err(IndexWriteError::Unusable)));
                assert!(matches!(
                    writer.flush_buffer(),
                    Err(IndexWriteError::Unusable)
                ));
                assert!(matches!(writer.flush(), Err(IndexWriteError::Unusable)));
                assert!(matches!(writer.sync_data(), Err(IndexWriteError::Unusable)));
                let file = writer.into_inner();
                assert_eq!(file.calls.len(), calls);
                assert!(file.steps.is_empty());
            }
        }
    }
}

#[test]
fn a_failed_batch_keeps_its_bytes_and_takes_no_further_reply() {
    let mut writer = writer(&[Step::Write(3), Step::Error]);
    writer.write(16).unwrap();
    assert!(matches!(send(&mut writer), Outcome::Failed(IndexWriteError::Io(_))));
    assert_eq!(writer.unsent().len(), 8);
    assert!(matches!(writer.resume(Ok(8)), Err(IndexWriteError::Unusable)));
    assert_eq!(writer.unsent().len(), 8);
}

#[test]
fn zero_progress_is_terminal_at_every_incomplete_entry_boundary() {
    for prefix in 0..16 {
        let steps = if prefix == 0 {
            vec![Step::Zero]
        } else {
            vec![Step::Write(prefix), Step::Zero]
        };
        let mut writer = writer(&steps);
        writer.write(16).unwrap();
        writer.write(35).unwrap();
        let Outcome::Failed(IndexWriteError::Io(error)) = send(&mut writer) else {
            panic!("expected zero progress to fail");
        };
        assert_eq!(error.kind(), IoErrorKind::WriteZero);
        assert_eq!(error.raw_os_error(), None);
        assert_eq!(
            error.description,
            std::io::Error::from(std::io::ErrorKind::WriteZero).to_string()
        );
        assert_eq!(writer.get_ref().bytes.len(), prefix);
        assert_eq!(writer.unsent().len(), 16);
        assert!(matches!(writer.write(52), Err(IndexWriteError::Unusable)));
        assert!(matches!(
            writer.flush_buffer(),
            Err(IndexWriteError::Unusable)
        ));
        assert!(writer.get_ref().steps.is_empty());
    }
}

#[test]
fn pending_file_flush_and_sync_resume_without_sending_newer_entries() {
    for (operation, completion) in [
        (OutputRequest::Flush, Step::Flush),
        (OutputRequest::SyncData, Step::Sync),
    ] {
        let mut writer = writer(&[Step::Pending, completion]);
        writer.write(16).unwrap();
        let Outcome::Pending(request) = perform(&mut writer, operation) else {
            panic!("expected a pending operation");
        };
        assert!(matches!(drive(&mut writer, Ok(Some(request))), Outcome::Done));
        assert_eq!(writer.unsent().len(), 8);
        assert!(writer.get_ref().bytes.is_empty());
        assert!(writer.get_ref().steps.is_empty());
        assert!(writer.write(35).is_ok());
    }
}

#[test]
fn owned_file_appends_preserve_the_prefix_and_drop_discards_only_unsent_entries() {
    let steps = [Step::Write(usize::MAX), Step::Flush, Step::Sync];
    let mut first = IndexWriter::new(ScriptedFile {
        steps: steps.iter().copied().collect(),
        ..ScriptedFile::default()
    });
    first.write(16).unwrap();
    first.write(35).unwrap();
    assert!(first.get_ref().bytes.is_empty());
    assert!(matches!(send(&mut first), Outcome::Done));
    assert!(matches!(perform(&mut first, OutputRequest::Flush), Outcome::Done));
    assert_eq!(
        first.get_ref().bytes,
        [16, 0, 0, 0, 0, 0, 0, 0, 35, 0, 0, 0, 0, 0, 0, 0]
    );
    assert!(matches!(perform(&mut first, OutputRequest::SyncData), Outcome::Done));
    first.write(99).unwrap();
    let mut file = first.into_inner();

    file.steps = steps.iter().copied().collect();
    let mut second = IndexWriter::new(file);
    second.write(52).unwrap();
    assert!(matches!(send(&mut second), Outcome::Done));
    assert!(matches!(perform(&mut second, OutputRequest::Flush), Outcome::Done));
    assert!(matches!(perform(&mut second, OutputRequest::SyncData), Outcome::Done));
    second.write(123).unwrap();
    assert_eq!(
        second.into_inner().bytes,
        [
            16, 0, 0, 0, 0, 0, 0, 0, 35, 0, 0, 0, 0, 0, 0, 0, 52, 0, 0, 0, 0, 0, 0, 0,
        ]
    );
}

#[test]
fn a_read_only_file_preserves_its_io_error_and_cannot_be_reused() {
    // A file can report the error at acceptance or at its flush.
    for steps in [
        vec![Step::Error],
        vec![Step::Write(usize::MAX), Step::Error],
    ] {
        let mut writer = writer(&steps);
        writer.write(35).unwrap();
        let result = match send(&mut writer) {
            Outcome::Done => perform(&mut writer, OutputRequest::Flush),
            failed => failed,
        };
        assert!(matches!(result, Outcome::Failed(IndexWriteError::Io(_))));
        assert!(matches!(writer.write(52), Err(IndexWriteError::Unusable)));
        assert!(matches!(writer.sync_data(), Err(IndexWriteError::Unusable)));
    }
}

#[test]
fn errors_show_the_concrete_failure() {
    let mut writer = writer(&[Step::Error]);
    writer.write(16).unwrap();
    let Outcome::Failed(error) = send(&mut writer) else {
        panic!("expected the I/O error");
    };
    assert_eq!(error.message(), "index file I/O failed: scripted");
    assert_eq!(
        writer.write(35).unwrap_err().message(),
        "index writer is unusable after incomplete or failed output"
    );
}
