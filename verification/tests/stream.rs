//! The prefetching byte source against a reference in-memory copy of the
//! resource: reads, seeks, end-of-resource behaviour, fault delivery, the
//! fetch-loop state machine, and the bounded channel's flow control.

use audiopipe::errors::StreamError;
use std::sync::mpsc::sync_channel;

use audiopipe::http_stream::{
    deliver_chunk, forward_fault, parse_content_length, FetchEvent, FetchItem, HttpStream,
    ProducerState, SeekTarget, BUFFER_SIZE, REQ_CHUNK_SIZE,
};

/// A deterministic pseudo-random resource of `len` bytes.
fn reference_resource(len: usize) -> Vec<u8> {
    let mut out = Vec::with_capacity(len);
    let mut state: u64 = 0x2545_f491_4f6c_dd1d;
    for _ in 0..len {
        state = state.wrapping_mul(6364136223846793005).wrapping_add(1442695040888963407);
        out.push((state >> 56) as u8);
    }
    out
}

/// A stream whose channel already holds the whole resource, as if the
/// fetch loop had run ahead to completion.
fn prefilled_stream(resource: &[u8]) -> HttpStream {
    let (tx, rx) = sync_channel::<FetchItem>(BUFFER_SIZE);
    let chunk: Vec<u8> = resource.to_vec();
    assert_eq!(deliver_chunk(&tx, &chunk), Some(resource.len()));
    HttpStream::from_parts(resource.len(), rx)
}

#[test]
fn read_from_start_matches_reference() {
    let resource = reference_resource(10_000);
    for k in [0usize, 1, 100, 9_999, 10_000] {
        let mut stream = prefilled_stream(&resource);
        let got = stream.read(k).expect("read failed");
        assert_eq!(got.len(), k);
        assert_eq!(&got[..], &resource[..k]);
    }
}

#[test]
fn sequential_reads_concatenate_to_reference() {
    let resource = reference_resource(1_000);
    let mut stream = prefilled_stream(&resource);
    let mut gathered = Vec::new();
    loop {
        let part = stream.read(64).expect("read failed");
        if part.is_empty() {
            break;
        }
        gathered.extend_from_slice(&part);
    }
    assert_eq!(gathered, resource);
}

#[test]
fn seek_and_read_matches_reference_slice() {
    let resource = reference_resource(5_000);
    for offset in [0usize, 1, 2_500, 4_999] {
        let mut stream = prefilled_stream(&resource);
        let pos = stream.seek(SeekTarget::Start(offset as u64)).expect("seek failed");
        assert_eq!(pos, offset as u64);
        let got = stream.read(100).expect("read failed");
        let expected_len = 100usize.min(resource.len() - offset);
        assert_eq!(got.len(), expected_len);
        assert_eq!(&got[..], &resource[offset..offset + expected_len]);
    }
}

#[test]
fn backward_seek_rereads_buffered_bytes() {
    let resource = reference_resource(2_000);
    let mut stream = prefilled_stream(&resource);
    let first = stream.read(1_500).expect("read failed");
    stream.seek(SeekTarget::Start(200)).expect("seek failed");
    let again = stream.read(300).expect("read failed");
    assert_eq!(&again[..], &first[200..500]);
    assert_eq!(&again[..], &resource[200..500]);
}

#[test]
fn relative_and_end_seeks_resolve_correctly() {
    let resource = reference_resource(1_000);
    let mut stream = prefilled_stream(&resource);
    stream.read(100).expect("read failed");
    let pos = stream.seek(SeekTarget::Current(-50)).expect("seek failed");
    assert_eq!(pos, 50);
    let pos = stream.seek(SeekTarget::End(-10)).expect("seek failed");
    assert_eq!(pos, 990);
    let got = stream.read(100).expect("read failed");
    assert_eq!(got.len(), 10);
    assert_eq!(&got[..], &resource[990..]);
}

#[test]
fn out_of_range_seeks_are_input_errors() {
    let resource = reference_resource(100);
    let mut stream = prefilled_stream(&resource);
    assert_eq!(stream.seek(SeekTarget::Start(100)), Err(StreamError::InvalidPosition));
    assert_eq!(stream.seek(SeekTarget::Start(1_000)), Err(StreamError::InvalidPosition));
    assert_eq!(stream.seek(SeekTarget::Current(-1)), Err(StreamError::InvalidPosition));
    assert_eq!(stream.seek(SeekTarget::End(1)), Err(StreamError::InvalidPosition));
    // A failed seek leaves the cursor where it was.
    let got = stream.read(4).expect("read failed");
    assert_eq!(&got[..], &resource[..4]);
}

#[test]
fn reading_past_end_yields_zero_bytes_not_error() {
    let resource = reference_resource(64);
    let mut stream = prefilled_stream(&resource);
    let all = stream.read(64).expect("read failed");
    assert_eq!(all.len(), 64);
    let past = stream.read(10).expect("read at end failed");
    assert!(past.is_empty());
    let past = stream.read(1).expect("repeated read at end failed");
    assert!(past.is_empty());
}

#[test]
fn empty_resource_reads_nothing() {
    let (_tx, rx) = sync_channel::<FetchItem>(16);
    let mut stream = HttpStream::from_parts(0, rx);
    let got = stream.read(1_000).expect("read failed");
    assert!(got.is_empty());
}

#[test]
fn fault_surfaces_only_when_its_bytes_are_needed() {
    let resource = reference_resource(100);
    let (tx, rx) = sync_channel::<FetchItem>(BUFFER_SIZE);
    assert_eq!(deliver_chunk(&tx, &resource[..40].to_vec()), Some(40));
    assert!(forward_fault(&tx, "connection reset".to_owned()));
    drop(tx);
    let mut stream = HttpStream::from_parts(100, rx);
    // Reads within the delivered region never observe the fault.
    let got = stream.read(40).expect("read before fault failed");
    assert_eq!(&got[..], &resource[..40]);
    // The next read needs missing bytes and surfaces the fault.
    match stream.read(1) {
        Err(StreamError::Transport(msg)) => assert_eq!(msg, "connection reset"),
        other => panic!("expected transport error, got {:?}", other),
    }
}

#[test]
fn vanished_fetch_side_surfaces_as_disconnected() {
    let resource = reference_resource(30);
    let (tx, rx) = sync_channel::<FetchItem>(BUFFER_SIZE);
    assert_eq!(deliver_chunk(&tx, &resource.to_vec()), Some(30));
    drop(tx);
    let mut stream = HttpStream::from_parts(60, rx);
    let got = stream.read(30).expect("read of delivered bytes failed");
    assert_eq!(&got[..], &resource[..]);
    assert_eq!(stream.read(1), Err(StreamError::Disconnected));
}

#[test]
fn seek_to_end_reaches_the_zero_byte_position() {
    let resource = reference_resource(100);
    let mut stream = prefilled_stream(&resource);
    assert_eq!(stream.seek_to_end(), 100);
    let got = stream.read(10).expect("read at end failed");
    assert!(got.is_empty());
    // The end position is reachable and leaves the buffered bytes intact:
    // a backward seek still reads them.
    stream.seek(SeekTarget::Start(90)).expect("seek back failed");
    let tail = stream.read(10).expect("tail read failed");
    assert_eq!(&tail[..], &resource[90..]);
}

#[test]
fn covered_reads_succeed_without_the_fetch_side() {
    // Once the buffer covers a region, reading it cannot fail, even with
    // the fetch side gone: the write-once cache serves it.
    let resource = reference_resource(200);
    let (tx, rx) = sync_channel::<FetchItem>(BUFFER_SIZE);
    assert_eq!(deliver_chunk(&tx, &resource.to_vec()), Some(200));
    drop(tx);
    let mut stream = HttpStream::from_parts(200, rx);
    let all = stream.read(200).expect("covering read failed");
    assert_eq!(&all[..], &resource[..]);
    stream.seek(SeekTarget::Start(0)).expect("seek failed");
    let again = stream.read(200).expect("covered read failed");
    assert_eq!(&again[..], &resource[..]);
}

#[test]
fn probe_prefix_reads_without_consuming() {
    let resource = reference_resource(1_024);
    let mut stream = prefilled_stream(&resource);
    let head = stream.probe_prefix(256).expect("probe failed");
    assert_eq!(&head[..], &resource[..256]);
    // The cursor is back at the start: a full read sees the same bytes.
    let first = stream.read(512).expect("read after probe failed");
    assert_eq!(&first[..256], &head[..]);
    assert_eq!(&first[..], &resource[..512]);
}

#[test]
fn producer_walks_resource_in_chunks() {
    let len = 2 * REQ_CHUNK_SIZE + 1_000;
    let mut producer = ProducerState::new(len);
    assert_eq!(producer.next_range(), Some((0, REQ_CHUNK_SIZE)));
    assert!(producer.advance(FetchEvent::Delivered(REQ_CHUNK_SIZE)));
    assert_eq!(producer.next_range(), Some((REQ_CHUNK_SIZE, 2 * REQ_CHUNK_SIZE)));
    assert!(producer.advance(FetchEvent::Delivered(REQ_CHUNK_SIZE)));
    assert_eq!(producer.next_range(), Some((2 * REQ_CHUNK_SIZE, len)));
    assert!(producer.advance(FetchEvent::Delivered(1_000)));
    assert_eq!(producer.next_range(), None);
}

#[test]
fn producer_stops_on_fault_or_vanished_consumer() {
    let mut producer = ProducerState::new(10 * REQ_CHUNK_SIZE);
    assert!(producer.advance(FetchEvent::Delivered(REQ_CHUNK_SIZE)));
    assert!(!producer.advance(FetchEvent::TransportFailed));
    let mut producer = ProducerState::new(10 * REQ_CHUNK_SIZE);
    assert!(!producer.advance(FetchEvent::ReceiverGone));
}

#[test]
fn dropped_consumer_fails_delivery_immediately() {
    let (tx, rx) = sync_channel::<FetchItem>(BUFFER_SIZE);
    drop(rx);
    let chunk = reference_resource(100);
    // The first failed send ends the delivery: no spinning on a gone consumer.
    assert_eq!(deliver_chunk(&tx, &chunk), None);
}

#[test]
fn bounded_channel_blocks_producer_at_capacity() {
    // The sender cannot place more than the configured capacity of
    // undelivered items; beyond it, a send would block (try_send reports
    // a full channel instead).
    let capacity = 128;
    let (tx, rx) = sync_channel::<FetchItem>(capacity);
    for i in 0..capacity {
        tx.try_send(FetchItem::Byte(i as u8)).expect("channel filled too early");
    }
    assert!(tx.try_send(FetchItem::Byte(0)).is_err());
    // Draining one item makes room for exactly one more.
    let mut stream = HttpStream::from_parts(capacity + 1, rx);
    let got = stream.read(1).expect("read failed");
    assert_eq!(got.len(), 1);
    tx.try_send(FetchItem::Byte(7)).expect("channel should have room again");
    assert!(tx.try_send(FetchItem::Byte(8)).is_err());
}

#[test]
fn prefetch_scenario_single_read_then_tail_read() {
    // Resource of 1,048,576 bytes fetched in 65,536-byte chunks; one read
    // of 4,096 bytes at offset 0, then a seek to length - 4,096 and a read
    // of 4,096 bytes. Both reads must match the reference copy, the second
    // one only after the whole resource has been delivered.
    let len = 1_048_576;
    let chunk_size = 65_536;
    assert_eq!(chunk_size, REQ_CHUNK_SIZE);
    let resource = reference_resource(len);
    let (tx, rx) = sync_channel::<FetchItem>(BUFFER_SIZE);
    // Run the fetch loop to completion; the channel's capacity of 4 MiB
    // holds the whole resource, so no send blocks.
    let mut producer = ProducerState::new(len);
    while let Some((start, end)) = producer.next_range() {
        let chunk = resource[start..end].to_vec();
        assert_eq!(chunk.len(), chunk_size.min(len - start));
        match deliver_chunk(&tx, &chunk) {
            Some(n) => {
                if !producer.advance(FetchEvent::Delivered(n)) {
                    break;
                }
            }
            None => {
                producer.advance(FetchEvent::ReceiverGone);
                break;
            }
        }
    }
    let mut stream = HttpStream::from_parts(len, rx);
    let head = stream.read(4_096).expect("head read failed");
    assert_eq!(&head[..], &resource[..4_096]);
    let tail_offset = (len - 4_096) as u64;
    assert_eq!(stream.seek(SeekTarget::Start(tail_offset)), Ok(tail_offset));
    let tail = stream.read(4_096).expect("tail read failed");
    assert_eq!(&tail[..], &resource[len - 4_096..]);
}

#[test]
fn stream_errors_describe_themselves() {
    assert_eq!(
        StreamError::Transport("connection reset".to_owned()).describe(),
        "connection reset"
    );
    assert_eq!(StreamError::Disconnected.describe(), "fetch channel disconnected");
    assert_eq!(StreamError::InvalidPosition.describe(), "seek position out of range");
}

#[test]
fn content_length_parses_digit_runs_exactly() {
    assert_eq!(parse_content_length("1048576"), Some(1_048_576));
    assert_eq!(parse_content_length("0"), Some(0));
    assert_eq!(parse_content_length("007"), Some(7));
    assert_eq!(parse_content_length("18446744073709551615"), Some(u64::MAX));
    assert_eq!(parse_content_length("18446744073709551616"), None);
    assert_eq!(parse_content_length(""), None);
    assert_eq!(parse_content_length("12a4"), None);
    assert_eq!(parse_content_length("-15"), None);
    assert_eq!(parse_content_length(" 15"), None);
}
