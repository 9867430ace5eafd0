//! Frame codec and handshake behaviour.

use crusty_core::protocol::{
    collect_framed_output, framed_request, read_frame, write_frame, Handshake, ProtocolError,
    PROTOCOL_VERSION,
};

#[test]
fn write_read_frame_roundtrip() {
    let payload = b"hello world".to_vec();
    let mut buf = Vec::new();
    write_frame(&mut buf, &payload);
    let (read, next) = read_frame(&buf, 0).unwrap().unwrap();
    assert_eq!(read.as_slice(), b"hello world");
    assert_eq!(next, buf.len());
}

#[test]
fn read_frame_empty_len() {
    let buf = vec![0u8; 4]; // length 0
    let (read, next) = read_frame(&buf, 0).unwrap().unwrap();
    assert!(read.is_empty());
    assert_eq!(next, 4);
}

#[test]
fn read_frame_eof_returns_none() {
    let buf: Vec<u8> = Vec::new();
    let read = read_frame(&buf, 0).unwrap();
    assert!(read.is_none());
}

#[test]
fn frame_roundtrip_empty_payload_is_distinct_from_eof() {
    let payload: Vec<u8> = Vec::new();
    let mut buf = Vec::new();
    write_frame(&mut buf, &payload);
    // A zero-length frame reads back as an (empty) payload, not as
    // end-of-stream.
    let got = read_frame(&buf, 0).unwrap();
    assert_eq!(got, Some((Vec::new(), 4)));
    // Whereas at the end of the buffer the stream has cleanly ended.
    let done = read_frame(&buf, 4).unwrap();
    assert!(done.is_none());
}

#[test]
fn read_frame_short_header_is_stream_end() {
    // Fewer than 4 bytes available: clean end of stream, not an error.
    let buf = vec![7u8, 0u8];
    assert_eq!(read_frame(&buf, 0).unwrap(), None);
}

#[test]
fn read_frame_truncated_payload_errors() {
    // Length prefix says 5 bytes, only 2 are present.
    let buf = vec![5u8, 0, 0, 0, b'a', b'b'];
    assert_eq!(read_frame(&buf, 0), Err(ProtocolError::Truncated));
}

#[test]
fn frame_length_is_little_endian() {
    let payload = vec![9u8; 258];
    let mut buf = Vec::new();
    write_frame(&mut buf, &payload);
    assert_eq!(&buf[0..4], &[2u8, 1u8, 0u8, 0u8]);
}

#[test]
fn collect_framed_output_concatenates_until_terminator() {
    let mut buf = Vec::new();
    write_frame(&mut buf, &b"ab".to_vec());
    write_frame(&mut buf, &b"cd".to_vec());
    write_frame(&mut buf, &Vec::new()); // terminator
    write_frame(&mut buf, &b"ignored".to_vec());
    assert_eq!(collect_framed_output(&buf).unwrap(), b"abcd".to_vec());
}

#[test]
fn collect_framed_output_stops_at_stream_end() {
    let mut buf = Vec::new();
    write_frame(&mut buf, &b"xyz".to_vec());
    assert_eq!(collect_framed_output(&buf).unwrap(), b"xyz".to_vec());
}

#[test]
fn collect_framed_output_truncated_errors() {
    let mut buf = Vec::new();
    write_frame(&mut buf, &b"ok".to_vec());
    buf.extend_from_slice(&[9u8, 0, 0, 0, b'x']); // frame cut short
    assert_eq!(collect_framed_output(&buf), Err(ProtocolError::Truncated));
}

#[test]
fn framed_request_skips_empty_payload() {
    let handshake = b"{}".to_vec();
    let with_payload = framed_request(&handshake, &b"pay".to_vec());
    let mut expected = Vec::new();
    write_frame(&mut expected, &handshake);
    write_frame(&mut expected, &b"pay".to_vec());
    assert_eq!(with_payload, expected);

    let without_payload = framed_request(&handshake, &Vec::new());
    let mut expected2 = Vec::new();
    write_frame(&mut expected2, &handshake);
    assert_eq!(without_payload, expected2);
}

#[test]
fn handshake_new() {
    let h = Handshake::new(
        "text/plain".to_string(),
        "audio/wav".to_string(),
        "{\"voice\": \"en\"}".to_string(),
    );
    assert_eq!(h.protocol, PROTOCOL_VERSION);
    assert_eq!(h.input_type, "text/plain");
    assert_eq!(h.output_type, "audio/wav");
    assert_eq!(h.config, "{\"voice\": \"en\"}");
}
