//! End-to-end transfer behaviour: draining, the ceiling, the sink.

use filepipe::client::plan_send;
use filepipe::errors::TransferError;
use filepipe::sink::handle_stream;
use filepipe::sink::SinkLog;
use filepipe::stream::drain_transcript;
use filepipe::stream::StreamEnd;
use filepipe::stream::StreamReader;

#[test]
fn round_trip_exact() {
    let payload: Vec<u8> = b"some payload worth sending".to_vec();
    let chunks = plan_send(&payload, 7);
    for c in &chunks {
        assert!(c.len() <= 7);
    }
    let got = drain_transcript(&chunks, StreamEnd::Finished, payload.len());
    assert_eq!(got, Ok(payload));
}

#[test]
fn round_trip_single_chunk() {
    let chunks = vec![vec![1u8, 2, 3]];
    let got = drain_transcript(&chunks, StreamEnd::Finished, 10);
    assert_eq!(got, Ok(vec![1u8, 2, 3]));
}

#[test]
fn payload_at_ceiling_accepted() {
    let chunks = vec![vec![5u8; 4], vec![6u8; 4]];
    let got = drain_transcript(&chunks, StreamEnd::Finished, 8);
    assert_eq!(got, Ok(vec![5, 5, 5, 5, 6, 6, 6, 6]));
}

#[test]
fn huge_ceiling_accepts_small_payload() {
    let chunks = vec![vec![1u8]];
    let got = drain_transcript(&chunks, StreamEnd::Finished, usize::MAX);
    assert_eq!(got, Ok(vec![1u8]));
}

#[test]
fn payload_over_ceiling_refused() {
    let chunks = vec![vec![5u8; 4], vec![6u8; 5]];
    let got = drain_transcript(&chunks, StreamEnd::Finished, 8);
    assert_eq!(got, Err(TransferError::PayloadTooLarge));
}

#[test]
fn oversize_stream_adds_no_sink_entry() {
    let mut sink = SinkLog::new();
    let chunks = vec![vec![0u8; 9]];
    let report = handle_stream(&chunks, StreamEnd::Finished, 8, true, &mut sink);
    assert_eq!(report, Err(TransferError::PayloadTooLarge));
    assert_eq!(sink.count(), 0);
}

#[test]
fn connection_loss_is_failure_not_truncated_success() {
    let mut sink = SinkLog::new();
    let chunks = vec![vec![1u8, 2, 3]];
    let got = drain_transcript(&chunks, StreamEnd::ConnectionClosed, 100);
    assert_eq!(got, Err(TransferError::ConnectionLost));
    let report = handle_stream(&chunks, StreamEnd::ConnectionClosed, 100, true, &mut sink);
    assert_eq!(report, Err(TransferError::ConnectionLost));
    assert_eq!(sink.count(), 0);
}

#[test]
fn sink_write_failure_reported_and_nothing_stored() {
    let mut sink = SinkLog::new();
    let chunks = vec![vec![1u8, 2]];
    let report = handle_stream(&chunks, StreamEnd::Finished, 10, false, &mut sink);
    assert_eq!(report, Err(TransferError::SinkWriteError));
    assert_eq!(sink.count(), 0);
}

#[test]
fn empty_payload_stored_with_count_zero() {
    let mut sink = SinkLog::new();
    let chunks: Vec<Vec<u8>> = Vec::new();
    let report = handle_stream(&chunks, StreamEnd::Finished, 1024, true, &mut sink);
    assert_eq!(report, Ok(0));
    assert_eq!(sink.count(), 1);
    assert_eq!(sink.entry(0).len(), 0);
}

#[test]
fn interleaved_streams_complete_independently() {
    // Two concurrent streams of different sizes on one connection; their
    // chunks arrive interleaved in an arbitrary order.
    let b1: Vec<u8> = b"first stream payload".to_vec();
    let b2: Vec<u8> = b"2nd".to_vec();
    let mut r1 = StreamReader::new(64);
    let mut r2 = StreamReader::new(64);
    assert!(r1.push_chunk(&b1[0..5]).is_ok());
    assert!(r2.push_chunk(&b2[0..2]).is_ok());
    assert!(r1.push_chunk(&b1[5..12]).is_ok());
    assert!(r2.push_chunk(&b2[2..3]).is_ok());
    // The second stream completes first.
    let got2 = r2.finish();
    assert!(r1.push_chunk(&b1[12..]).is_ok());
    let got1 = r1.finish();
    assert_eq!(got1, b1);
    assert_eq!(got2, b2);
}

#[test]
fn three_streams_stored_in_any_order() {
    let payloads: [&[u8]; 3] = [b"AAA", b"BBBB", b"C"];
    let mut sink = SinkLog::new();
    // Completion order differs from opening order.
    for i in [2usize, 0, 1] {
        let chunks = vec![payloads[i].to_vec()];
        let report = handle_stream(&chunks, StreamEnd::Finished, 1024, true, &mut sink);
        assert_eq!(report, Ok(payloads[i].len()));
    }
    assert_eq!(sink.count(), 3);
    let mut stored: Vec<Vec<u8>> = Vec::new();
    for id in 0..3 {
        stored.push(sink.entry(id).clone());
    }
    stored.sort();
    let mut expected = vec![b"AAA".to_vec(), b"BBBB".to_vec(), b"C".to_vec()];
    expected.sort();
    assert_eq!(stored, expected);
}

#[test]
fn sink_ids_are_fresh_per_store() {
    let mut sink = SinkLog::new();
    let first = handle_stream(&vec![vec![1u8]], StreamEnd::Finished, 10, true, &mut sink);
    let second = handle_stream(&vec![vec![2u8, 2]], StreamEnd::Finished, 10, true, &mut sink);
    assert_eq!(first, Ok(1));
    assert_eq!(second, Ok(2));
    assert_eq!(sink.count(), 2);
    assert_eq!(sink.entry(0), &vec![1u8]);
    assert_eq!(sink.entry(1), &vec![2u8, 2]);
}

#[test]
fn plan_send_exact_chunking() {
    let payload = vec![1u8, 2, 3, 4, 5];
    let chunks = plan_send(&payload, 2);
    assert_eq!(chunks, vec![vec![1u8, 2], vec![3u8, 4], vec![5u8]]);
}

#[test]
fn plan_send_empty_payload() {
    let payload: Vec<u8> = Vec::new();
    let chunks = plan_send(&payload, 8);
    assert!(chunks.is_empty());
}

#[test]
fn oversized_stream_leaves_sibling_untouched() {
    // Interleaved with a stream that overruns its ceiling, the sibling
    // stream still completes byte for byte.
    let good: Vec<u8> = b"kept whole".to_vec();
    let mut oversized = StreamReader::new(4);
    let mut fine = StreamReader::new(64);
    assert!(fine.push_chunk(&good[0..4]).is_ok());
    assert!(oversized.push_chunk(&[7u8; 3]).is_ok());
    assert_eq!(oversized.push_chunk(&[7u8; 2]), Err(TransferError::PayloadTooLarge));
    assert!(fine.push_chunk(&good[4..]).is_ok());
    assert_eq!(fine.finish(), good);
}

#[test]
fn reader_discards_partial_data_on_overflow() {
    let mut r = StreamReader::new(3);
    assert!(r.push_chunk(&[1, 2]).is_ok());
    assert_eq!(r.push_chunk(&[3, 4]), Err(TransferError::PayloadTooLarge));
    // Later chunks are refused too: the stream is abandoned, not resumed.
    assert_eq!(r.push_chunk(&[5]), Err(TransferError::PayloadTooLarge));
}
