use zenoh_sandbox::framing::{decode_frame, encode_frame, FrameError, FrameRead, LINE_FEED};

#[test]
fn frame_appends_one_line_feed() {
    assert_eq!(encode_frame(b"\"Stop\""), Ok(b"\"Stop\"\n".to_vec()));
    assert_eq!(encode_frame(b""), Ok(vec![LINE_FEED]));
    assert_eq!(LINE_FEED, b'\n');
}

#[test]
fn frame_refuses_a_line_feed() {
    assert_eq!(
        encode_frame(b"{\n}"),
        Err(FrameError::EncodeError(
            "the document does not fit on one line".to_string()
        ))
    );
    assert_eq!(
        encode_frame(b"\n"),
        Err(FrameError::EncodeError(
            "the document does not fit on one line".to_string()
        ))
    );
}

#[test]
fn nothing_read_is_a_closed_stream() {
    assert_eq!(decode_frame(b""), FrameRead::Closed);
}

#[test]
fn line_is_read_without_its_end() {
    assert_eq!(decode_frame(b"\"Stop\"\n"), FrameRead::Line(b"\"Stop\"".to_vec()));
    assert_eq!(decode_frame(b"\n"), FrameRead::Line(Vec::new()));
    assert_eq!(decode_frame(b"abc"), FrameRead::Line(b"abc".to_vec()));
    assert_eq!(decode_frame(b"a\n\n"), FrameRead::Line(b"a\n".to_vec()));
    assert_eq!(decode_frame(b"a\r\n"), FrameRead::Line(b"a\r".to_vec()));
}

#[test]
fn frame_round_trip() {
    for payload in [&b""[..], b"x", b"{\"Started\":\"abc\"}", b"\r", &[0u8, 255, 9]] {
        let frame = encode_frame(payload).unwrap();
        assert_eq!(frame.len(), payload.len() + 1);
        assert_eq!(decode_frame(&frame), FrameRead::Line(payload.to_vec()));
    }
}

#[test]
fn frame_error_messages() {
    assert_eq!(
        FrameError::EncodeError("bad".to_string()).message(),
        "Serialization error: bad"
    );
    assert_eq!(
        FrameError::DecodeError("bad".to_string()).message(),
        "Parse error: bad"
    );
    assert_eq!(FrameError::read_failed("gone").message(), "Read error: gone");
    assert_eq!(FrameError::write_failed("gone").message(), "Write error: gone");
    assert_eq!(FrameError::flush_failed("gone").message(), "Flush error: gone");
    assert_eq!(
        FrameError::read_failed("gone"),
        FrameError::IoError("Read error: gone".to_string())
    );
}
