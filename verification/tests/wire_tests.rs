use superchain_client::format::Format;
use superchain_client::wire::{decode_frame, encode_frame, Header, Kind, TRAILER_LEN};
use superchain_client::MsgId;

fn header(kind: Kind, id: u128, counter: u32, cursor: &[u8]) -> Header {
    Header {
        kind,
        id: MsgId(id),
        counter,
        format: Format::JsonStream,
        deltas: false,
        cursor: cursor.to_vec(),
    }
}

#[test]
fn frame_round_trip_plain() {
    let h = header(Kind::Continue, 0x1234_5678_9abc_def0_1122_3344_5566_7788, 7, b"");
    let payload = b"hello world".to_vec();
    let frame = encode_frame(&h, &payload);
    assert_eq!(frame.len(), payload.len() + TRAILER_LEN);

    let (decoded, out_payload) = decode_frame(&frame).expect("well-formed frame");
    assert_eq!(decoded.kind, Kind::Continue);
    assert_eq!(decoded.id, MsgId(0x1234_5678_9abc_def0_1122_3344_5566_7788));
    assert_eq!(decoded.counter, 7);
    assert_eq!(decoded.format, Format::JsonStream);
    assert!(!decoded.deltas);
    assert!(decoded.cursor.is_empty());
    assert_eq!(out_payload, payload);
}

#[test]
fn frame_round_trip_with_cursor_and_flags() {
    let h = Header {
        kind: Kind::Subscription,
        id: MsgId(42),
        counter: 0,
        format: Format::Arrow,
        deltas: true,
        cursor: b"resume-token".to_vec(),
    };
    let payload = vec![0u8, 1, 2, 3, 255];
    let frame = encode_frame(&h, &payload);

    let (decoded, out_payload) = decode_frame(&frame).expect("well-formed frame");
    assert_eq!(decoded.kind, Kind::Subscription);
    assert_eq!(decoded.id, MsgId(42));
    assert_eq!(decoded.format, Format::Arrow);
    assert!(decoded.deltas);
    assert_eq!(decoded.cursor, b"resume-token".to_vec());
    assert_eq!(out_payload, payload);
}

#[test]
fn frame_round_trip_empty_payload() {
    let h = header(Kind::End, 9, 3, b"c");
    let frame = encode_frame(&h, &[]);
    let (decoded, out_payload) = decode_frame(&frame).expect("well-formed frame");
    assert_eq!(decoded.kind, Kind::End);
    assert_eq!(decoded.cursor, b"c".to_vec());
    assert!(out_payload.is_empty());
}

#[test]
fn decode_rejects_short_buffer() {
    assert!(decode_frame(&[0u8; 24]).is_none());
    assert!(decode_frame(b"").is_none());
}

#[test]
fn decode_rejects_unknown_marker() {
    let h = header(Kind::Continue, 1, 0, b"");
    let mut frame = encode_frame(&h, b"x");
    let marker_pos = frame.len() - TRAILER_LEN;
    frame[marker_pos] = 0x55;
    assert!(decode_frame(&frame).is_none());
}

#[test]
fn decode_rejects_bad_format_code() {
    let h = header(Kind::Continue, 1, 0, b"");
    let mut frame = encode_frame(&h, b"x");
    let fmt_pos = frame.len() - 4;
    frame[fmt_pos] = 9;
    assert!(decode_frame(&frame).is_none());
}

#[test]
fn decode_rejects_oversized_cursor_length() {
    let h = header(Kind::Continue, 1, 0, b"");
    let mut frame = encode_frame(&h, b"x");
    let len = frame.len();
    // Claim a cursor longer than everything before the trailer.
    frame[len - 2] = 200;
    frame[len - 1] = 0;
    assert!(decode_frame(&frame).is_none());
}

#[test]
fn kind_marker_round_trip() {
    for kind in [
        Kind::Start,
        Kind::Continue,
        Kind::ContinueWithError,
        Kind::End,
        Kind::Error,
        Kind::Subscription,
    ] {
        assert_eq!(Kind::from_marker(kind.marker()), Some(kind));
    }
    assert_eq!(Kind::from_marker(0x00), None);
    assert_eq!(Kind::from_marker(0x03), None);
}

#[test]
fn format_code_round_trip() {
    for format in [Format::Json, Format::JsonStream, Format::Arrow, Format::ArrowStream] {
        assert_eq!(Format::from_code(format.code()), Some(format));
    }
    assert_eq!(Format::from_code(4), None);
}
