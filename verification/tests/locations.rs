use transaction_log::location::{
    LogFileId, LogFileIdRangeError, LogFileNumber, LogFileNumberError, LogFilePosition,
    LogFileRange, RecordEndLocation, RecordRangeLocationError, RecordStartLocation,
    MAX_LOG_FILE_NUMBER, RECORDS_PER_FILE,
};
use transaction_log::record::{
    Record, RecordId, RecordLength, SequenceNumber, StreamId, MAX_STREAM_ID,
};
use transaction_log::stream_checkpoint::StreamCheckpoint;
use transaction_log::validation::IndexFileValidationError;

fn streams() -> [StreamId; 2] {
    [StreamId::min(), StreamId::max()]
}

fn file(stream: StreamId, number: u64) -> LogFileId {
    LogFileId::new(stream, LogFileNumber::new(number).unwrap())
}

fn collect(first: LogFileId, last: LogFileId) -> Vec<LogFileId> {
    let mut ids = first.iter_to(last).unwrap();
    let mut collected = Vec::new();
    while let Some(id) = ids.next() {
        collected.push(id);
    }
    collected
}

#[test]
fn iteration_is_inclusive_and_preserves_the_stream() {
    for stream in streams() {
        let first = file(stream, 999);
        let last = file(stream, 1001);
        let ids = collect(first, last);
        assert_eq!(
            ids.iter()
                .map(|id| id.file_number().get())
                .collect::<Vec<_>>(),
            [999, 1000, 1001]
        );
        assert!(ids.iter().all(|id| id.stream_id() == stream));
        assert_eq!(collect(first, first), [first]);
    }
}

#[test]
fn iteration_is_lazy_and_stops_without_advancing_the_terminal_file() {
    let first = LogFileId::new(StreamId::max(), LogFileNumber::min());
    let last = LogFileId::new(StreamId::max(), LogFileNumber::max());
    let mut ids = first.iter_to(last).unwrap();
    let mut numbers = Vec::new();
    for _ in 0..3 {
        numbers.push(ids.next().unwrap().file_number().get());
    }
    assert_eq!(numbers, [0, 1, 2]);
    let penultimate = LogFileId::new(
        StreamId::max(),
        LogFileNumber::new(LogFileNumber::max().get() - 1).unwrap(),
    );
    let mut iterator = penultimate.iter_to(last).unwrap();
    assert_eq!(iterator.next(), Some(penultimate));
    assert_eq!(iterator.next(), Some(last));
    assert_eq!(iterator.next(), None);
    assert_eq!(iterator.next(), None);
    assert_eq!(collect(last, last), [last]);
}

#[test]
fn iteration_rejects_different_streams_and_reversed_files() {
    let first = file(StreamId::min(), 2);
    let other_stream = file(StreamId::max(), 3);
    assert!(
        matches!(first.iter_to(other_stream), Err(LogFileIdRangeError::DifferentStreams { first: actual_first, last }) if actual_first == first && last == other_stream)
    );
    let earlier = file(StreamId::min(), 1);
    assert!(
        matches!(first.iter_to(earlier), Err(LogFileIdRangeError::ReversedFiles { first: actual_first, last }) if actual_first == first && last == earlier)
    );
}

#[test]
fn maps_record_ids_across_file_and_integer_boundaries() {
    for stream in streams() {
        for (sequence, file_number) in [
            (0, 0),
            (99_999, 0),
            (100_000, 1),
            (199_999, 1),
            (200_000, 2),
            (4_294_967_295, 42_949),
            (4_294_967_296, 42_949),
            (18_446_744_073_709_499_999, 184_467_440_737_094),
            (18_446_744_073_709_500_000, 184_467_440_737_095),
            (u64::MAX, 184_467_440_737_095),
        ] {
            let record = RecordId::new(stream, SequenceNumber::new(sequence));
            let file = LogFileId::from_record_id(record);
            assert_eq!(file.stream_id(), stream);
            assert_eq!(file.file_number().get(), file_number);
        }
    }
}

#[test]
fn counts_inclusively_within_the_naturally_assigned_file() {
    for stream in streams() {
        for (sequence, count) in [
            (0, 1),
            (1, 2),
            (99_998, 99_999),
            (99_999, 100_000),
            (100_000, 1),
            (100_001, 2),
            (199_999, 100_000),
            (200_000, 1),
            (18_446_744_073_709_499_999, 100_000),
            (18_446_744_073_709_500_000, 1),
            (u64::MAX, 51_616),
        ] {
            let record_id = RecordId::new(stream, SequenceNumber::new(sequence));
            assert_eq!(LogFileId::record_count_through(record_id), count);
        }
    }
}

#[test]
fn locates_zero_based_record_ids_and_rejects_indexes_outside_each_file() {
    for stream in streams() {
        let ordinary = file(stream, 1);
        for (index, sequence) in [(0, 100_000), (1, 100_001), (99_999, 199_999)] {
            assert_eq!(
                ordinary.record_id_at(index).unwrap(),
                RecordId::new(stream, SequenceNumber::new(sequence))
            );
        }
        for index in [100_000, u64::MAX] {
            let error = ordinary.record_id_at(index).unwrap_err();
            assert_eq!(error.file_id, ordinary);
            assert_eq!(error.index, index);
            assert_eq!(error.maximum_index, 99_999);
        }
    }
}

#[test]
fn range_endpoints_match_assigned_sequences() {
    for stream in streams() {
        for (number, first, last) in [
            (0, 0, 99_999),
            (1, 100_000, 199_999),
            (
                184_467_440_737_094,
                18_446_744_073_709_400_000,
                18_446_744_073_709_499_999,
            ),
            (184_467_440_737_095, 18_446_744_073_709_500_000, u64::MAX),
        ] {
            let file = file(stream, number);
            assert_eq!(
                file.first_record_id(),
                RecordId::new(stream, SequenceNumber::new(first))
            );
            assert_eq!(
                file.last_record_id(),
                RecordId::new(stream, SequenceNumber::new(last))
            );
        }
    }
}

#[test]
fn successor_preserves_stream_and_produces_adjacent_ranges() {
    for stream in streams() {
        for number in [0, 1, 184_467_440_737_094] {
            let file = file(stream, number);
            let next = file.next();
            assert_eq!(next.stream_id(), stream);
            assert_eq!(next.file_number().get(), number + 1);
            assert_eq!(next.first_record_id(), file.last_record_id().next());
        }
    }
}

#[test]
fn every_place_of_a_file_counts_one_past_itself() {
    for number in [0, 3, 184_467_440_737_095] {
        let file = file(StreamId::max(), number);
        for index in [0, 1, 51_615] {
            let record_id = file.record_id_at(index).unwrap();
            assert_eq!(LogFileId::from_record_id(record_id), file);
            assert_eq!(LogFileId::record_count_through(record_id), index + 1);
        }
    }
}

#[test]
fn preserves_offsets_without_narrowing_or_imposing_storage_bounds() {
    assert_eq!(LogFilePosition::start().get(), 0);
    let above_four_gib = LogFilePosition::new(4_294_967_296);
    assert_eq!(above_four_gib.get(), 4_294_967_296);

    for value in [0, 1, 65_535, 6_553_500_000, u64::MAX] {
        assert_eq!(LogFilePosition::new(value).get(), value);
    }
}

#[test]
fn moves_by_the_encoded_length_without_mutating_the_original() {
    let end = LogFilePosition::new(123).advance(RecordLength::min());
    let start = end.retreat(RecordLength::min());
    assert_eq!(end.get(), 139);
    assert_eq!(start.get(), 123);

    for (start, length, end) in [
        (0, RecordLength::min(), 16),
        (0, RecordLength::max(), 65_535),
        (1, RecordLength::max(), 65_536),
        (42, RecordLength::new(21).unwrap(), 63),
        (4_294_967_295, RecordLength::min(), 4_294_967_311),
        (u64::MAX - 65_535, RecordLength::max(), u64::MAX),
    ] {
        let start_position = LogFilePosition::new(start);
        let end_position = LogFilePosition::new(end);
        assert_eq!(start_position.advance(length), end_position);
        assert_eq!(end_position.retreat(length), start_position);
        assert_eq!(start_position.get(), start);
        assert_eq!(end_position.get(), end);
    }
}

#[test]
fn positions_are_ordered_by_their_offsets() {
    assert!(LogFilePosition::new(15) < LogFilePosition::new(16));
    assert!(LogFilePosition::start() < LogFilePosition::new(u64::MAX));
}

#[test]
fn invalid_byte_span_displays_offsets_as_full_width_numbers() {
    let file = LogFileId::first(StreamId::min());
    let error = RecordRangeLocationError::InvalidByteSpan {
        log_file_id: file,
        start_position: LogFilePosition::new(u64::MAX),
        end_position: LogFilePosition::new(4_294_967_296),
    };

    assert_eq!(
        error.message(),
        format!(
            "record range has an empty or reversed byte span 18446744073709551615..4294967296 in {file:?}"
        )
    );
}

#[test]
fn range_errors_name_streams_and_sequences() {
    let error = RecordRangeLocationError::DifferentStreams {
        start_stream_id: StreamId::min(),
        end_stream_id: StreamId::max(),
    };
    assert_eq!(
        error.message(),
        "record range starts in stream 0 and ends in stream 4095"
    );
    let error = RecordRangeLocationError::ReversedRecords {
        start_sequence_number: SequenceNumber::new(10),
        end_sequence_number: SequenceNumber::new(9),
    };
    assert_eq!(
        error.message(),
        "record range starts at sequence 10 after its end 9"
    );
}

#[test]
fn to_end_adds_the_encoded_length_and_keeps_the_same_record_and_file() {
    for stream_id in streams() {
        for (sequence, start_position, length, end_position, file_number) in [
            (0, 0, RecordLength::min(), 16, 0),
            (0, 0, RecordLength::max(), 65_535, 0),
            (42, 100, RecordLength::new(21).unwrap(), 121, 0),
            (99_999, 6_553_434_465, RecordLength::max(), 6_553_500_000, 0),
            (100_000, 0, RecordLength::min(), 16, 1),
        ] {
            let record_id = RecordId::new(stream_id, SequenceNumber::new(sequence));
            let end = RecordStartLocation::new(record_id, start_position).to_end(length);

            assert_eq!(end.record_id(), record_id);
            assert_eq!(end.position().get(), end_position);
            assert_eq!(end.log_file_id().stream_id(), stream_id);
            assert_eq!(end.log_file_id().file_number().get(), file_number);
        }
    }
}

#[test]
fn to_end_reaches_the_numeric_limit_without_wrapping() {
    let record_id = RecordId::new(StreamId::min(), SequenceNumber::new(0));
    let start = RecordStartLocation::new(record_id, u64::MAX - 16);
    assert_eq!(start.to_end(RecordLength::min()).position().get(), u64::MAX);
}

#[test]
fn to_next_advances_the_record_and_resets_the_position_at_file_rotation() {
    for stream_id in streams() {
        for (sequence, position, length, next_sequence, next_position) in [
            (0, 0, RecordLength::min(), 1, 16),
            (0, 0, RecordLength::max(), 1, 65_535),
            (42, 100, RecordLength::new(21).unwrap(), 43, 121),
            (
                99_998,
                6_553_368_930,
                RecordLength::max(),
                99_999,
                6_553_434_465,
            ),
            (99_999, 6_553_434_465, RecordLength::max(), 100_000, 0),
            (100_000, 0, RecordLength::min(), 100_001, 16),
        ] {
            let start = RecordStartLocation::new(
                RecordId::new(stream_id, SequenceNumber::new(sequence)),
                position,
            );
            let expected = RecordStartLocation::new(
                RecordId::new(stream_id, SequenceNumber::new(next_sequence)),
                next_position,
            );

            assert_eq!(start.to_next(length), expected);
        }
    }
}

#[test]
fn starts_keep_the_target_identity_across_file_and_numeric_boundaries() {
    for stream_id in streams() {
        for (sequence, position, file_number) in [
            (0, 0, 0),
            (99_999, 6_553_434_465, 0),
            // The preceding record ends in file zero; this start belongs to one.
            (100_000, 0, 1),
            (u64::MAX, 3_382_589_025, 184_467_440_737_095),
        ] {
            let record_id = RecordId::new(stream_id, SequenceNumber::new(sequence));
            let location = RecordStartLocation::new(record_id, position);

            assert_eq!(location.record_id(), record_id);
            assert_eq!(location.position(), position);
            assert_eq!(location.log_file_id().stream_id(), stream_id);
            assert_eq!(location.log_file_id().file_number().get(), file_number);
        }
    }
}

#[test]
fn checkpoint_preserves_the_supplied_endpoint() {
    for stream_id in streams() {
        for (sequence, position) in [
            (0, 16),
            // 100,000 maximum-size records exceed a u32 file offset.
            (99_999, 6_553_500_000),
            (100_000, 16),
            // The terminal range has 51,616 positions; no successor is needed.
            (u64::MAX, 825_856),
        ] {
            let end = RecordEndLocation::new(
                RecordId::new(stream_id, SequenceNumber::new(sequence)),
                LogFilePosition::new(position),
            );
            let checkpoint = StreamCheckpoint::new(end);
            assert_eq!(checkpoint.end(), end);
        }
    }
}

#[test]
fn trusted_mismatch_displays_numeric_offsets_and_distinguishes_absence() {
    for (actual_position, expected_message) in [
        (
            None,
            "trusted index entry 2 must contain 4294967296, but contains None",
        ),
        (
            Some(LogFilePosition::new(u64::MAX)),
            "trusted index entry 2 must contain 4294967296, but contains Some(18446744073709551615)",
        ),
    ] {
        let error = IndexFileValidationError::TrustedIndexMismatch {
            entry_index: 2,
            expected_position: LogFilePosition::new(4_294_967_296),
            actual_position,
        };
        assert_eq!(error.message(), expected_message);
    }
}

#[test]
fn identifier_domains_are_closed_at_both_ends() {
    assert_eq!(StreamId::new(0).unwrap(), StreamId::min());
    assert_eq!(StreamId::new(4_095).unwrap(), StreamId::max());
    assert_eq!(StreamId::new(4_096).unwrap_err().value, 4_096);
    assert_eq!(MAX_STREAM_ID, 4_095);
    assert_eq!(LogFileNumber::max().get(), 184_467_440_737_095);
    assert_eq!(MAX_LOG_FILE_NUMBER, u64::MAX / RECORDS_PER_FILE);
    for number in [184_467_440_737_096, u64::MAX] {
        let error = LogFileNumber::new(number).unwrap_err();
        assert_eq!(error, LogFileNumberError::new(number));
        assert_eq!(error.value(), number);
        assert_eq!(
            error.message(),
            format!(
                "log file number {number} is outside the supported range 0..=184467440737095"
            )
        );
    }
    for length in [16, 65_535] {
        assert_eq!(RecordLength::new(length).unwrap().get(), length);
    }
    for length in [0, 15, 65_536] {
        assert_eq!(RecordLength::new(length).unwrap_err().value, length);
    }
}

#[test]
fn records_keep_their_encoding_and_refuse_impossible_lengths() {
    let id = RecordId::new(StreamId::min(), SequenceNumber::new(0));
    let record = Record::new(id, vec![7; 16]).unwrap();
    assert_eq!(record.id(), id);
    assert_eq!(record.length(), RecordLength::min());
    assert_eq!(record.as_bytes(), [7; 16]);
    assert_eq!(Record::new(id, vec![7; 15]).unwrap_err().value, 15);
    assert_eq!(Record::new(id, vec![7; 65_536]).unwrap_err().value, 65_536);
}

#[test]
fn byte_ranges_distinguish_their_boundaries() {
    let whole = LogFileRange::FileRange {
        start_position: 16,
        end_position: 35,
    };
    assert_ne!(whole, LogFileRange::FilePostfix { start_position: 16 });
    assert_ne!(whole, LogFileRange::FilePrefix { end_position: 35 });
    assert_ne!(whole, LogFileRange::EntireFile);
}

#[test]
fn range_and_index_errors_name_their_files() {
    let first = file(StreamId::new(7).unwrap(), 2);
    let other = file(StreamId::new(8).unwrap(), 3);
    assert_eq!(
        first.iter_to(other).unwrap_err().message(),
        "log-file range endpoints belong to different streams: \
         LogFileId { stream_id: StreamId(7), file_number: LogFileNumber(2) } through \
         LogFileId { stream_id: StreamId(8), file_number: LogFileNumber(3) }"
    );
    let earlier = file(StreamId::new(7).unwrap(), 1);
    assert_eq!(
        first.iter_to(earlier).unwrap_err().message(),
        "log-file range is reversed: \
         LogFileId { stream_id: StreamId(7), file_number: LogFileNumber(2) } through \
         LogFileId { stream_id: StreamId(7), file_number: LogFileNumber(1) }"
    );
    assert_eq!(
        first.record_id_at(RECORDS_PER_FILE).unwrap_err().message(),
        "record index 100000 exceeds maximum supported index 99999 for log file \
         LogFileId { stream_id: StreamId(7), file_number: LogFileNumber(2) }"
    );
}

#[test]
fn every_comparison_of_positions_goes_by_the_offset() {
    let positions = [0, 1, 15, 16, u64::from(u32::MAX) + 1, u64::MAX].map(LogFilePosition::new);
    for (i, left) in positions.iter().enumerate() {
        for (j, right) in positions.iter().enumerate() {
            assert_eq!(left.partial_cmp(right), Some(i.cmp(&j)));
            assert_eq!(left.cmp(right), i.cmp(&j));
            assert_eq!(left < right, left.get() < right.get());
            assert_eq!(left == right, left.get() == right.get());
        }
    }
}
