use packetline_reader::line::{Error, FramingError, HandleProgress, MessageKind, Protocol};
use packetline_reader::reader::Reader;

/// One framed packet line holding `payload`.
fn pkt(payload: &[u8]) -> Vec<u8> {
    let mut v = format!("{:04x}", payload.len() + 4).into_bytes();
    v.extend_from_slice(payload);
    v
}

#[test]
fn truncated_prefix_is_a_framing_error() {
    let mut r = Reader::new(b"00".to_vec(), Protocol::V1);
    match r.readline() {
        Some(Err(FramingError::Truncated { needed })) => assert_eq!(needed, 2),
        other => panic!("expected a truncation error, got {:?}", other),
    }
    // The position is unchanged: the failure repeats.
    assert!(matches!(
        r.readline(),
        Some(Err(FramingError::Truncated { needed: 2 }))
    ));
    // A framing error records no stop and invokes no handler.
    assert_eq!(r.stopped_at(), None);
}

#[test]
fn truncated_payload_reports_missing_bytes() {
    // The prefix announces 9 bytes in total but only 6 arrive.
    let mut r = Reader::new(b"0009he".to_vec(), Protocol::V1);
    assert!(matches!(
        r.readline(),
        Some(Err(FramingError::Truncated { needed: 3 }))
    ));
}

#[test]
fn non_hexadecimal_prefix_is_malformed() {
    let mut r = Reader::new(b"zzzz".to_vec(), Protocol::V1);
    assert!(matches!(
        r.readline(),
        Some(Err(FramingError::Malformed { .. }))
    ));
    assert_eq!(r.stopped_at(), None);
}

#[test]
fn length_three_is_malformed() {
    let mut r = Reader::new(b"0003".to_vec(), Protocol::V1);
    assert!(matches!(
        r.readline(),
        Some(Err(FramingError::Malformed { .. }))
    ));
}

#[test]
fn length_four_is_malformed() {
    let mut r = Reader::new(b"0004".to_vec(), Protocol::V1);
    assert!(matches!(
        r.readline(),
        Some(Err(FramingError::Malformed { .. }))
    ));
}

#[test]
fn length_above_maximum_is_malformed() {
    // fff1 announces 65521 bytes, one above the allowed maximum.
    let mut r = Reader::new(b"fff1".to_vec(), Protocol::V1);
    assert!(matches!(
        r.readline(),
        Some(Err(FramingError::Malformed { .. }))
    ));
}

#[test]
fn uppercase_hexadecimal_prefix_is_accepted() {
    // 000A announces a 10-byte line: 6 bytes of payload.
    let mut stream = b"000A".to_vec();
    stream.extend_from_slice(b"abcdef");
    let mut r = Reader::new(stream, Protocol::V1);
    assert_eq!(r.read_next().unwrap().unwrap(), b"abcdef".to_vec());
}

#[test]
fn framing_error_surfaces_on_demultiplexed_reads() {
    let mut r = Reader::new(b"0003".to_vec(), Protocol::V1);
    assert!(matches!(
        r.read_next(),
        Some(Err(Error::Framing(FramingError::Malformed { .. })))
    ));
    assert!(matches!(
        r.peek_data_line(),
        Some(Err(Error::Framing(FramingError::Malformed { .. })))
    ));
}

#[test]
fn unrecognized_channel_tag_is_an_error() {
    let stream = pkt(&[9u8, b'x', b'y']);
    let mut r = Reader::new(stream, Protocol::V1);
    r.set_progress_handler(Some(HandleProgress::new()));
    match r.read_next() {
        Some(Err(Error::InvalidBand { band })) => assert_eq!(band, 9),
        other => panic!("expected an invalid band error, got {:?}", other),
    }
    assert!(r.take_progress_events().is_empty());
}

#[test]
fn peek_announces_the_error_a_read_then_yields() {
    let stream = pkt(&[9u8, b'x']);
    let mut r = Reader::new(stream, Protocol::V1);
    r.set_progress_handler(Some(HandleProgress::new()));
    assert!(matches!(
        r.peek_data_line(),
        Some(Err(Error::InvalidBand { band: 9 }))
    ));
    assert!(matches!(
        r.read_next(),
        Some(Err(Error::InvalidBand { band: 9 }))
    ));
}

#[test]
fn non_stop_marker_in_payload_context_is_an_error() {
    // A response-end marker never stops a segment; where payload is
    // expected it is an error, with or without side-band mode.
    let mut r = Reader::new(b"0002".to_vec(), Protocol::V1);
    assert!(matches!(r.read_next(), Some(Err(Error::NonData))));

    let mut r2 = Reader::new(b"0002".to_vec(), Protocol::V2);
    r2.set_progress_handler(Some(HandleProgress::new()));
    assert!(matches!(r2.read_next(), Some(Err(Error::NonData))));
}

#[test]
fn error_on_one_line_leaves_stop_state_alone() {
    let mut stream = pkt(&[9u8, b'q']);
    stream.extend_from_slice(b"0000");
    let mut r = Reader::new(stream, Protocol::V1);
    r.set_progress_handler(Some(HandleProgress::new()));
    assert!(matches!(
        r.read_next(),
        Some(Err(Error::InvalidBand { band: 9 }))
    ));
    assert_eq!(r.stopped_at(), None);
    // The offending line is consumed; the flush then stops reading.
    assert!(r.read_next().is_none());
    assert_eq!(r.stopped_at(), Some(MessageKind::Flush));
}
