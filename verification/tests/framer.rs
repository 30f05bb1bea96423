use bytes::BytesMut;

use net_serial_console::event::EventCodec;

#[test]
fn two_records_in_one_call() {
    let mut codec = EventCodec::new();
    let mut buf = BytesMut::from(&b"ab\ncd\n"[..]);
    let r1 = codec.decode(&mut buf).expect("first record");
    assert_eq!(r1, "retry: 999999\r\nid: 1\r\ndata: ab\r\n\r\n");
    let r2 = codec.decode(&mut buf).expect("second record");
    assert_eq!(r2, "retry: 999999\r\nid: 2\r\ndata: cd\r\n\r\n");
    assert!(codec.decode(&mut buf).is_none());
    assert_eq!(buf.len(), 0);
}

#[test]
fn buffering_is_lossless_across_calls() {
    let mut codec = EventCodec::new();
    let mut buf = BytesMut::from(&b"ab"[..]);
    assert!(codec.decode(&mut buf).is_none());
    buf.extend_from_slice(b"cd\n");
    let r = codec.decode(&mut buf).expect("one record");
    assert_eq!(r, "retry: 999999\r\nid: 1\r\ndata: abcd\r\n\r\n");
    assert!(codec.decode(&mut buf).is_none());
}

#[test]
fn zero_new_bytes_keep_the_buffer() {
    let mut codec = EventCodec::new();
    let mut buf = BytesMut::from(&b"partial"[..]);
    assert!(codec.decode(&mut buf).is_none());
    assert!(codec.decode(&mut buf).is_none());
    buf.extend_from_slice(b"\n");
    let r = codec.decode(&mut buf).expect("record");
    assert_eq!(r, "retry: 999999\r\nid: 1\r\ndata: partial\r\n\r\n");
}

#[test]
fn long_run_is_cut_at_width_then_remainder_follows() {
    let mut codec = EventCodec::new();
    let mut buf = BytesMut::from(&[b'x'; 100][..]);
    // No delimiter yet: nothing is emitted, everything stays buffered.
    assert!(codec.decode(&mut buf).is_none());
    assert_eq!(buf.len(), 100);
    // The delimiter arrives: first a forced cut of exactly 80 bytes...
    buf.extend_from_slice(b"\n");
    let r1 = codec.decode(&mut buf).expect("truncated record");
    let expected80 = format!("retry: 999999\r\nid: 1\r\ndata: {}\r\n\r\n", "x".repeat(80));
    assert_eq!(r1, expected80);
    // ...then the 20-byte remainder under the next id.
    let r2 = codec.decode(&mut buf).expect("remainder record");
    let expected20 = format!("retry: 999999\r\nid: 2\r\ndata: {}\r\n\r\n", "x".repeat(20));
    assert_eq!(r2, expected20);
    assert!(codec.decode(&mut buf).is_none());
}

#[test]
fn control_byte_renders_as_underscore() {
    let mut codec = EventCodec::new();
    let mut buf = BytesMut::from(&b"a\x01b\n"[..]);
    let r = codec.decode(&mut buf).expect("record");
    assert_eq!(r, "retry: 999999\r\nid: 1\r\ndata: a_b\r\n\r\n");
}

#[test]
fn high_bytes_render_as_underscores_per_byte() {
    let mut codec = EventCodec::new();
    let mut buf = BytesMut::from(&[b'o', b'k', 0xc3, 0xa9, b'\n'][..]);
    let r = codec.decode(&mut buf).expect("record");
    assert_eq!(r, "retry: 999999\r\nid: 1\r\ndata: ok__\r\n\r\n");
}

#[test]
fn crlf_line_equals_lf_line() {
    let mut codec_a = EventCodec::new();
    let mut buf_a = BytesMut::from(&b"hello\r\n"[..]);
    let a = codec_a.decode(&mut buf_a).expect("record");

    let mut codec_b = EventCodec::new();
    let mut buf_b = BytesMut::from(&b"hello\n"[..]);
    let b = codec_b.decode(&mut buf_b).expect("record");

    assert_eq!(a, b);
    assert_eq!(a, "retry: 999999\r\nid: 1\r\ndata: hello\r\n\r\n");
}

#[test]
fn only_one_trailing_carriage_return_is_stripped() {
    let mut codec = EventCodec::new();
    let mut buf = BytesMut::from(&b"x\r\r\n"[..]);
    let r = codec.decode(&mut buf).expect("record");
    assert_eq!(r, "retry: 999999\r\nid: 1\r\ndata: x_\r\n\r\n");
}

#[test]
fn empty_lines_consume_no_id() {
    let mut codec = EventCodec::new();
    let mut buf = BytesMut::from(&b"\n\r\nhi\n"[..]);
    let r = codec.decode(&mut buf).expect("record");
    assert_eq!(r, "retry: 999999\r\nid: 1\r\ndata: hi\r\n\r\n");
    assert!(codec.decode(&mut buf).is_none());
}

#[test]
fn delimiter_exactly_at_width_forces_a_cut() {
    let mut codec = EventCodec::new();
    let mut line = vec![b'y'; 80];
    line.push(b'\n');
    let mut buf = BytesMut::from(&line[..]);
    let r1 = codec.decode(&mut buf).expect("forced cut");
    let expected = format!("retry: 999999\r\nid: 1\r\ndata: {}\r\n\r\n", "y".repeat(80));
    assert_eq!(r1, expected);
    // Only the delimiter is left; it frames an empty line and no record.
    assert_eq!(buf.len(), 1);
    assert!(codec.decode(&mut buf).is_none());
    assert_eq!(buf.len(), 0);
}

#[test]
fn ids_increase_across_calls() {
    let mut codec = EventCodec::new();
    let mut buf = BytesMut::from(&b"one\n"[..]);
    let r1 = codec.decode(&mut buf).expect("record");
    buf.extend_from_slice(b"two\n");
    let r2 = codec.decode(&mut buf).expect("record");
    buf.extend_from_slice(b"three\n");
    let r3 = codec.decode(&mut buf).expect("record");
    assert_eq!(r1, "retry: 999999\r\nid: 1\r\ndata: one\r\n\r\n");
    assert_eq!(r2, "retry: 999999\r\nid: 2\r\ndata: two\r\n\r\n");
    assert_eq!(r3, "retry: 999999\r\nid: 3\r\ndata: three\r\n\r\n");
}
