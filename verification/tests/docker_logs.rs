use iotedge::docker::{
    decode_logs, logs_from_body, logs_request, logs_stream_readable, read_line, LogBuf, LogsError,
};

fn frame(stream: u8, payload: &[u8]) -> Vec<u8> {
    let len = payload.len() as u32;
    let mut v = vec![stream, 0, 0, 0];
    v.extend_from_slice(&len.to_be_bytes());
    v.extend_from_slice(payload);
    v
}

#[test]
fn documented_frame_decodes() {
    let mut bytes = vec![0x01, 0x00, 0x00, 0x00, 0x00, 0x00, 0x00, 0x1f];
    bytes.extend_from_slice(b"Roses are red, violets are blue");
    assert!(logs_stream_readable(&bytes));
    let logs = decode_logs(&bytes).unwrap();
    assert_eq!(logs, "Roses are red, violets are blue");
}

#[test]
fn frames_are_concatenated_in_order() {
    let mut bytes = frame(1, b"first line\n");
    bytes.extend(frame(2, b"second line\n"));
    bytes.extend(frame(1, b""));
    bytes.extend(frame(1, "third \u{e9}\n".as_bytes()));
    assert!(logs_stream_readable(&bytes));
    assert_eq!(decode_logs(&bytes).unwrap(), "first line\nsecond line\nthird \u{e9}\n");
}

#[test]
fn empty_stream_decodes_to_nothing() {
    assert!(logs_stream_readable(&[]));
    assert_eq!(decode_logs(&[]).unwrap(), "");
}

#[test]
fn stream_type_is_ignored() {
    let a = frame(1, b"same");
    let b = frame(2, b"same");
    assert_eq!(decode_logs(&a).unwrap(), decode_logs(&b).unwrap());
}

#[test]
fn length_is_big_endian() {
    let payload = vec![b'x'; 300];
    let bytes = frame(1, &payload);
    assert_eq!(&bytes[4..8], &[0, 0, 1, 44]);
    assert_eq!(decode_logs(&bytes).unwrap().len(), 300);
}

#[test]
fn invalid_utf8_is_an_error() {
    let mut bytes = frame(1, b"ok");
    bytes.extend(frame(1, &[0xff, 0xfe]));
    bytes.extend(frame(1, b"never read"));
    assert!(logs_stream_readable(&bytes));
    match decode_logs(&bytes) {
        Err(LogsError::Utf8(e)) => assert_eq!(e.valid_up_to(), 0),
        Ok(_) => panic!("expected an error"),
    }
}

#[test]
fn truncated_streams_are_not_readable() {
    let bytes = frame(1, b"hello");
    assert!(!logs_stream_readable(&bytes[..bytes.len() - 1]));
    assert!(!logs_stream_readable(&bytes[..5]));
    let mut two = bytes.clone();
    two.extend_from_slice(&[1, 0, 0]);
    assert!(!logs_stream_readable(&two));
}

#[test]
fn garbage_after_an_invalid_payload_is_readable() {
    let mut bytes = frame(1, &[0xc3]);
    bytes.extend_from_slice(&[1, 2, 3]);
    assert!(logs_stream_readable(&bytes));
    assert!(decode_logs(&bytes).is_err());
}

#[test]
fn read_line_moves_past_the_frame() {
    let mut bytes = frame(1, b"one");
    bytes.extend(frame(1, b"two"));
    let mut buf = LogBuf::new(&bytes);
    assert_eq!(read_line(&mut buf).unwrap(), "one");
    assert!(buf.has_remaining());
    assert_eq!(read_line(&mut buf).unwrap(), "two");
    assert!(!buf.has_remaining());
}

#[test]
fn read_line_error_stops_after_header() {
    let mut bytes = frame(1, &[0xff]);
    bytes.extend(frame(1, b"x"));
    let mut buf = LogBuf::new(&bytes);
    assert!(read_line(&mut buf).is_err());
    assert!(buf.has_remaining());
}

#[test]
fn no_body_gives_no_logs() {
    assert!(matches!(logs_from_body(None), Ok(None)));
    let bytes = frame(1, b"hi");
    assert_eq!(logs_from_body(Some(&bytes)).unwrap(), Some("hi".to_string()));
    let bad = frame(1, &[0x80]);
    assert!(logs_from_body(Some(&bad)).is_err());
}

#[test]
fn logs_request_targets_the_container() {
    let r = logs_request("influx");
    assert_eq!(r.path, "containers/influx/logs");
    assert_eq!(
        r.query,
        vec![
            ("stdout".to_string(), "true".to_string()),
            ("stderr".to_string(), "true".to_string())
        ]
    );
}

#[test]
fn error_is_that_of_the_first_bad_payload() {
    let mut bytes = frame(1, b"fine");
    bytes.extend(frame(1, &[b'a', b'b', 0xe2, 0x82]));
    bytes.extend(frame(1, &[0xff]));
    let expected = std::str::from_utf8(&[b'a', b'b', 0xe2, 0x82]).unwrap_err();
    match decode_logs(&bytes) {
        Err(LogsError::Utf8(e)) => {
            assert_eq!(e, expected);
            assert_eq!(e.valid_up_to(), 2);
            assert_eq!(e.error_len(), None);
        }
        Ok(_) => panic!("expected an error"),
    }
}
