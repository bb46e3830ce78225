use lsp_websocket::adapter::{
    drain_frames, ChannelEvent, InboundFrame, PollOutcome, ReadOutcome, SinkStatus, StreamAdapter,
    WriteStep,
};

fn data_of(r: ReadOutcome) -> Vec<u8> {
    match r {
        ReadOutcome::Data(v) => v,
        _ => panic!("expected a data outcome"),
    }
}

fn local_of(r: Option<Vec<u8>>) -> Vec<u8> {
    match r {
        Some(v) => v,
        None => panic!("expected a buffered read"),
    }
}

#[test]
fn fresh_adapter_needs_an_event() {
    let mut a = StreamAdapter::new();
    assert!(a.read_local(16).is_none());
    assert!(!a.write_shut());
}

#[test]
fn small_buffers_yield_exact_concatenation() {
    // Inbound payloads of assorted lengths, read with capacities 1..=3:
    // the reader must see the exact concatenation, whatever the chunking.
    let payloads: Vec<Vec<u8>> = vec![
        b"alpha".to_vec(),
        b"".to_vec(),
        b"bc".to_vec(),
        b"delta-echo".to_vec(),
    ];
    let mut a = StreamAdapter::new();
    let mut seen: Vec<u8> = Vec::new();
    let mut cap: usize = 1;
    for p in &payloads {
        let frame = InboundFrame::Binary(p.clone());
        seen.extend_from_slice(&data_of(a.read_event(ChannelEvent::Frame(frame), cap)));
        while let Some(v) = a.read_local(cap) {
            seen.extend_from_slice(&v);
            cap = cap % 3 + 1;
        }
    }
    let expected: Vec<u8> = b"alphabcdelta-echo".to_vec();
    assert_eq!(seen, expected);
}

#[test]
fn text_frames_deliver_their_utf8_bytes() {
    let mut a = StreamAdapter::new();
    let frame = InboundFrame::Text(b"{\"a\":1}".to_vec());
    let out = data_of(a.read_event(ChannelEvent::Frame(frame), 64));
    assert_eq!(out, b"{\"a\":1}".to_vec());
}

#[test]
fn control_frames_are_transparent() {
    // A control frame between two binary frames yields a zero-byte read,
    // is not end-of-stream, and the next real payload still comes through.
    let mut a = StreamAdapter::new();
    let first = data_of(a.read_event(ChannelEvent::Frame(InboundFrame::Binary(b"one".to_vec())), 8));
    assert_eq!(first, b"one".to_vec());
    assert!(a.read_local(8).is_none());
    let mid = a.read_event(ChannelEvent::Frame(InboundFrame::Control), 8);
    let empty = data_of(mid);
    assert!(empty.is_empty());
    assert!(a.read_local(8).is_none());
    let second = data_of(a.read_event(ChannelEvent::Frame(InboundFrame::Binary(b"two".to_vec())), 8));
    assert_eq!(second, b"two".to_vec());
}

#[test]
fn end_of_stream_is_idempotent() {
    let mut a = StreamAdapter::new();
    let out = a.read_event(ChannelEvent::Closed, 8);
    assert!(matches!(out, ReadOutcome::Eof));
    for _ in 0..5 {
        let v = local_of(a.read_local(8));
        assert!(v.is_empty());
    }
}

#[test]
fn channel_failure_is_reported_and_state_kept() {
    let mut a = StreamAdapter::new();
    let out = a.read_event(ChannelEvent::Failed, 8);
    assert!(matches!(out, ReadOutcome::Failed));
    // The failure did not masquerade as end-of-stream.
    assert!(a.read_local(8).is_none());
}

#[test]
fn not_ready_reports_would_block() {
    let mut a = StreamAdapter::new();
    let out = a.read_event(ChannelEvent::NotReady, 8);
    assert!(matches!(out, ReadOutcome::WouldBlock));
    assert!(a.read_local(8).is_none());
}

#[test]
fn four_byte_reads_chunk_two_frames() {
    // Text {"a":1}, then binary {"b":2}, then close, read 4 bytes at a time:
    // each 7-byte payload arrives as a 4-byte chunk then a 3-byte chunk, and
    // every call after the close reports 0 bytes.
    let mut a = StreamAdapter::new();
    let c1 = data_of(a.read_event(
        ChannelEvent::Frame(InboundFrame::Text(b"{\"a\":1}".to_vec())),
        4,
    ));
    assert_eq!(c1, b"{\"a\"".to_vec());
    let c2 = local_of(a.read_local(4));
    assert_eq!(c2, b":1}".to_vec());
    assert!(a.read_local(4).is_none());
    let c3 = data_of(a.read_event(
        ChannelEvent::Frame(InboundFrame::Binary(b"{\"b\":2}".to_vec())),
        4,
    ));
    assert_eq!(c3, b"{\"b\"".to_vec());
    let c4 = local_of(a.read_local(4));
    assert_eq!(c4, b":2}".to_vec());
    assert!(a.read_local(4).is_none());
    let end = a.read_event(ChannelEvent::Closed, 4);
    assert!(matches!(end, ReadOutcome::Eof));
    assert!(local_of(a.read_local(4)).is_empty());
    assert!(local_of(a.read_local(4)).is_empty());
}

#[test]
fn write_is_one_frame_of_all_bytes() {
    // An accepted 11-byte write becomes exactly one frame of those 11 bytes,
    // and a flush against a draining sink completes cleanly.
    let mut a = StreamAdapter::new();
    let step = a.attempt_write(SinkStatus::Ready, b"hello world");
    match step {
        WriteStep::Submit(frame) => {
            assert_eq!(frame.payload.len(), 11);
            assert_eq!(frame.payload, b"hello world".to_vec());
        }
        _ => panic!("a ready sink must accept the write"),
    }
    assert!(matches!(a.flush_step(SinkStatus::Ready), PollOutcome::Done));
}

#[test]
fn busy_sink_blocks_the_write() {
    let mut a = StreamAdapter::new();
    let step = a.attempt_write(SinkStatus::Busy, b"payload");
    assert!(matches!(step, WriteStep::WouldBlock));
    // Retrying once the sink is ready still submits every byte.
    let step = a.attempt_write(SinkStatus::Ready, b"payload");
    match step {
        WriteStep::Submit(frame) => assert_eq!(frame.payload, b"payload".to_vec()),
        _ => panic!("a ready sink must accept the write"),
    }
}

#[test]
fn broken_sink_fails_write_and_flush() {
    let mut a = StreamAdapter::new();
    assert!(matches!(
        a.attempt_write(SinkStatus::Broken, b"x"),
        WriteStep::Failed
    ));
    assert!(matches!(a.flush_step(SinkStatus::Broken), PollOutcome::Failed));
}

#[test]
fn flush_reports_pending_sink() {
    let a = StreamAdapter::new();
    assert!(matches!(a.flush_step(SinkStatus::Busy), PollOutcome::WouldBlock));
}

#[test]
fn shutdown_completes_once_the_sink_closes() {
    let mut a = StreamAdapter::new();
    assert!(matches!(a.shutdown_step(SinkStatus::Busy), PollOutcome::WouldBlock));
    assert!(!a.write_shut());
    assert!(matches!(a.shutdown_step(SinkStatus::Ready), PollOutcome::Done));
    assert!(a.write_shut());
}

#[test]
fn connections_are_isolated() {
    // Forcing a channel failure on one connection's adapter changes nothing
    // for the other connection.
    let mut left = StreamAdapter::new();
    let mut right = StreamAdapter::new();
    let out = data_of(right.read_event(
        ChannelEvent::Frame(InboundFrame::Binary(b"steady".to_vec())),
        3,
    ));
    assert_eq!(out, b"ste".to_vec());
    let broken = left.read_event(ChannelEvent::Failed, 8);
    assert!(matches!(broken, ReadOutcome::Failed));
    // The healthy connection still drains its pending bytes and writes.
    let rest = local_of(right.read_local(8));
    assert_eq!(rest, b"ady".to_vec());
    match right.attempt_write(SinkStatus::Ready, b"ok") {
        WriteStep::Submit(frame) => assert_eq!(frame.payload, b"ok".to_vec()),
        _ => panic!("a ready sink must accept the write"),
    }
}

#[test]
fn drain_reassembles_any_frame_sequence() {
    let make_frames = || {
        vec![
            InboundFrame::Text(b"head ".to_vec()),
            InboundFrame::Control,
            InboundFrame::Binary(b"and".to_vec()),
            InboundFrame::Binary(Vec::new()),
            InboundFrame::Text(b" tail".to_vec()),
        ]
    };
    assert_eq!(drain_frames(make_frames(), 1), b"head and tail".to_vec());
    assert_eq!(drain_frames(make_frames(), 2), b"head and tail".to_vec());
    assert_eq!(drain_frames(make_frames(), 64), b"head and tail".to_vec());
}

#[test]
fn empty_data_frame_is_a_zero_byte_read_not_eof() {
    let mut a = StreamAdapter::new();
    let out = data_of(a.read_event(ChannelEvent::Frame(InboundFrame::Binary(Vec::new())), 8));
    assert!(out.is_empty());
    assert!(a.read_local(8).is_none());
}

#[test]
fn zero_capacity_read_keeps_bytes_pending() {
    let mut a = StreamAdapter::new();
    let out = data_of(a.read_event(ChannelEvent::Frame(InboundFrame::Binary(b"abc".to_vec())), 0));
    assert!(out.is_empty());
    let rest = local_of(a.read_local(8));
    assert_eq!(rest, b"abc".to_vec());
}
