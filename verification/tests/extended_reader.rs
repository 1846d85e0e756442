use packetline_reader::bufread::{ExtendedBufRead, ReadlineBufRead};
use packetline_reader::line::{FramingError, HandleProgress, Line, MessageKind, Protocol};
use packetline_reader::reader::Reader;

/// One framed packet line holding `payload`.
fn pkt(payload: &[u8]) -> Vec<u8> {
    let mut v = format!("{:04x}", payload.len() + 4).into_bytes();
    v.extend_from_slice(payload);
    v
}

/// One framed side-band line on channel `ch` holding `text`.
fn band(ch: u8, text: &[u8]) -> Vec<u8> {
    let mut payload = vec![ch];
    payload.extend_from_slice(text);
    pkt(&payload)
}

fn cat(parts: &[Vec<u8>]) -> Vec<u8> {
    let mut v = Vec::new();
    for p in parts {
        v.extend_from_slice(p);
    }
    v
}

const FLUSH: &[u8] = b"0000";
const DELIM: &[u8] = b"0001";
const RESPONSE_END: &[u8] = b"0002";

fn expect_data(r: Option<Result<Line, FramingError>>) -> Vec<u8> {
    match r {
        Some(Ok(Line::Data(d))) => d,
        other => panic!("expected a payload line, got {:?}", other),
    }
}

#[test]
fn data_then_flush_yields_line_then_none() {
    // DATA("hello") FLUSH, no side-band negotiated.
    let stream = cat(&[pkt(b"hello"), FLUSH.to_vec()]);
    let mut r = Reader::new(stream, Protocol::V1);
    assert_eq!(expect_data(r.readline()), b"hello".to_vec());
    assert!(r.readline().is_none());
    assert_eq!(r.stopped_at(), Some(MessageKind::Flush));
}

#[test]
fn flush_stops_under_v1() {
    let stream = cat(&[pkt(b"a"), pkt(b"b"), FLUSH.to_vec()]);
    let mut r = Reader::new(stream, Protocol::V1);
    assert_eq!(expect_data(r.readline()), b"a".to_vec());
    assert_eq!(expect_data(r.readline()), b"b".to_vec());
    assert!(r.readline().is_none());
    assert_eq!(r.stopped_at(), Some(MessageKind::Flush));
    // Once stopped, every further read halts and the stop is unchanged.
    assert!(r.readline().is_none());
    assert!(r.readline().is_none());
    assert_eq!(r.stopped_at(), Some(MessageKind::Flush));
}

#[test]
fn delimiter_stops_under_v2_and_reset_resumes() {
    let stream = cat(&[pkt(b"a"), DELIM.to_vec(), pkt(b"b"), FLUSH.to_vec()]);
    let mut r = Reader::new(stream, Protocol::V2);
    assert_eq!(expect_data(r.readline()), b"a".to_vec());
    assert!(r.readline().is_none());
    assert_eq!(r.stopped_at(), Some(MessageKind::Delimiter));
    r.reset(Protocol::V2);
    assert_eq!(r.stopped_at(), None);
    assert_eq!(expect_data(r.readline()), b"b".to_vec());
    assert!(r.readline().is_none());
    assert_eq!(r.stopped_at(), Some(MessageKind::Flush));
}

#[test]
fn delimiter_is_content_under_v1() {
    // Under V1 a delimiter is ordinary unrecognized content, not a stop.
    let stream = cat(&[pkt(b"a"), DELIM.to_vec(), pkt(b"b"), FLUSH.to_vec()]);
    let mut r = Reader::new(stream, Protocol::V1);
    assert_eq!(expect_data(r.readline()), b"a".to_vec());
    assert!(matches!(r.readline(), Some(Ok(Line::Delimiter))));
    assert_eq!(r.stopped_at(), None);
    assert_eq!(expect_data(r.readline()), b"b".to_vec());
    assert!(r.readline().is_none());
    assert_eq!(r.stopped_at(), Some(MessageKind::Flush));
}

#[test]
fn reset_v1_after_stop_limits_terminator_to_flush() {
    let stream = cat(&[
        pkt(b"a"),
        DELIM.to_vec(),
        DELIM.to_vec(),
        pkt(b"b"),
        FLUSH.to_vec(),
    ]);
    let mut r = Reader::new(stream, Protocol::V2);
    assert_eq!(expect_data(r.readline()), b"a".to_vec());
    assert!(r.readline().is_none());
    assert_eq!(r.stopped_at(), Some(MessageKind::Delimiter));
    r.reset(Protocol::V1);
    // The second delimiter no longer stops the segment.
    assert!(matches!(r.readline(), Some(Ok(Line::Delimiter))));
    assert_eq!(expect_data(r.readline()), b"b".to_vec());
    assert!(r.readline().is_none());
    assert_eq!(r.stopped_at(), Some(MessageKind::Flush));
}

#[test]
fn response_end_is_content_for_raw_reads() {
    let stream = cat(&[RESPONSE_END.to_vec(), pkt(b"x"), FLUSH.to_vec()]);
    let mut r = Reader::new(stream, Protocol::V2);
    assert!(matches!(r.readline(), Some(Ok(Line::ResponseEnd))));
    assert_eq!(expect_data(r.readline()), b"x".to_vec());
    assert!(r.readline().is_none());
    assert_eq!(r.stopped_at(), Some(MessageKind::Flush));
}

#[test]
fn peek_twice_returns_identical_payload() {
    let stream = cat(&[pkt(b"abc"), FLUSH.to_vec()]);
    let mut r = Reader::new(stream, Protocol::V1);
    let first = r.peek_data_line().unwrap().unwrap();
    let second = r.peek_data_line().unwrap().unwrap();
    assert_eq!(first, second);
    assert_eq!(first, b"abc".to_vec());
    // The consuming read still sees the peeked line.
    assert_eq!(r.read_next().unwrap().unwrap(), b"abc".to_vec());
    assert!(r.peek_data_line().is_none());
    assert_eq!(r.stopped_at(), Some(MessageKind::Flush));
}

#[test]
fn peek_twice_with_sideband_routes_auxiliaries_once() {
    let stream = cat(&[band(2, b"status\n"), band(1, b"payload"), FLUSH.to_vec()]);
    let mut r = Reader::new(stream, Protocol::V1);
    r.set_progress_handler(Some(HandleProgress::new()));
    let first = r.peek_data_line().unwrap().unwrap();
    let second = r.peek_data_line().unwrap().unwrap();
    assert_eq!(first, b"payload".to_vec());
    assert_eq!(first, second);
    let events = r.take_progress_events();
    assert_eq!(events.len(), 1);
    assert!(!events[0].is_error);
    assert_eq!(events[0].text, b"status".to_vec());
}

#[test]
fn interleaved_sideband_stream_routes_in_order() {
    // [progress, data, error, data, flush] with a handler installed.
    let stream = cat(&[
        band(2, b"working\n"),
        band(1, b"one"),
        band(3, b"trouble\n"),
        band(1, b"two"),
        FLUSH.to_vec(),
    ]);
    let mut r = Reader::new(stream, Protocol::V1);
    r.set_progress_handler(Some(HandleProgress::new()));
    assert_eq!(r.read_next().unwrap().unwrap(), b"one".to_vec());
    assert_eq!(r.read_next().unwrap().unwrap(), b"two".to_vec());
    assert!(r.read_next().is_none());
    assert_eq!(r.stopped_at(), Some(MessageKind::Flush));
    let events = r.take_progress_events();
    assert_eq!(events.len(), 2);
    assert!(!events[0].is_error);
    assert_eq!(events[0].text, b"working".to_vec());
    assert!(events[1].is_error);
    assert_eq!(events[1].text, b"trouble".to_vec());
}

#[test]
fn progress_text_without_newline_is_kept_whole() {
    let stream = cat(&[band(2, b"plain"), band(1, b"d"), FLUSH.to_vec()]);
    let mut r = Reader::new(stream, Protocol::V1);
    r.set_progress_handler(Some(HandleProgress::new()));
    assert_eq!(r.read_next().unwrap().unwrap(), b"d".to_vec());
    let events = r.take_progress_events();
    assert_eq!(events.len(), 1);
    assert_eq!(events[0].text, b"plain".to_vec());
}

#[test]
fn empty_primary_sideband_line_is_skipped() {
    let stream = cat(&[band(1, b""), band(1, b"real"), FLUSH.to_vec()]);
    let mut r = Reader::new(stream, Protocol::V1);
    r.set_progress_handler(Some(HandleProgress::new()));
    assert_eq!(r.read_next().unwrap().unwrap(), b"real".to_vec());
}

#[test]
fn without_handler_payload_is_not_classified() {
    // Absent side-band mode all payload lines are primary, tags included.
    let stream = cat(&[band(1, b"raw"), FLUSH.to_vec()]);
    let mut r = Reader::new(stream, Protocol::V1);
    let mut expected = vec![1u8];
    expected.extend_from_slice(b"raw");
    assert_eq!(r.read_next().unwrap().unwrap(), expected);
}

#[test]
fn replacing_handler_drops_undrained_events() {
    let stream = cat(&[band(2, b"old news\n"), band(1, b"d"), FLUSH.to_vec()]);
    let mut r = Reader::new(stream, Protocol::V1);
    r.set_progress_handler(Some(HandleProgress::new()));
    assert_eq!(r.read_next().unwrap().unwrap(), b"d".to_vec());
    r.set_progress_handler(Some(HandleProgress::new()));
    assert!(r.take_progress_events().is_empty());
}

#[test]
fn clearing_handler_turns_sideband_off() {
    let stream = cat(&[band(2, b"p\n"), band(1, b"d"), band(1, b"e"), FLUSH.to_vec()]);
    let mut r = Reader::new(stream, Protocol::V1);
    r.set_progress_handler(Some(HandleProgress::new()));
    assert_eq!(r.read_next().unwrap().unwrap(), b"d".to_vec());
    r.set_progress_handler(None);
    // The next payload line comes back whole, tag included.
    assert_eq!(r.read_next().unwrap().unwrap(), vec![1u8, b'e']);
    assert!(r.take_progress_events().is_empty());
}

#[test]
fn take_progress_events_without_handler_is_empty() {
    let stream = pkt(b"a");
    let mut r = Reader::new(stream, Protocol::V1);
    assert!(r.take_progress_events().is_empty());
}

#[test]
fn stopped_at_is_idempotent() {
    let stream = cat(&[FLUSH.to_vec()]);
    let mut r = Reader::new(stream, Protocol::V1);
    assert_eq!(r.stopped_at(), None);
    assert_eq!(r.stopped_at(), None);
    assert!(r.readline().is_none());
    let first = r.stopped_at();
    assert_eq!(first, Some(MessageKind::Flush));
    assert_eq!(r.stopped_at(), first);
    assert_eq!(r.stopped_at(), first);
}

#[test]
fn natural_end_of_stream_reports_no_stop() {
    let stream = pkt(b"tail");
    let mut r = Reader::new(stream, Protocol::V1);
    assert_eq!(expect_data(r.readline()), b"tail".to_vec());
    assert!(r.readline().is_none());
    assert_eq!(r.stopped_at(), None);
}

#[test]
fn boxed_reader_forwards_every_operation() {
    let stream = cat(&[
        band(2, b"note\n"),
        band(1, b"data"),
        DELIM.to_vec(),
        band(1, b"rest"),
        FLUSH.to_vec(),
    ]);
    let mut r: Box<Reader> = Box::new(Reader::new(stream, Protocol::V2));
    ExtendedBufRead::set_progress_handler(&mut r, Some(HandleProgress::new()));
    let peeked = ExtendedBufRead::peek_data_line(&mut r).unwrap().unwrap();
    assert_eq!(peeked, b"data".to_vec());
    assert!(matches!(
        ReadlineBufRead::readline(&mut r),
        Some(Ok(Line::Data(_)))
    ));
    assert!(ReadlineBufRead::readline(&mut r).is_none());
    assert_eq!(
        ExtendedBufRead::stopped_at(&r),
        Some(MessageKind::Delimiter)
    );
    ExtendedBufRead::reset(&mut r, Protocol::V2);
    assert_eq!(ExtendedBufRead::stopped_at(&r), None);
    let rest = ExtendedBufRead::peek_data_line(&mut r).unwrap().unwrap();
    assert_eq!(rest, b"rest".to_vec());
}
