use sandbox_backend::framing::{decode_frames, encode_frame, frame_body_len};

#[test]
fn frame_has_little_endian_length_prefix() {
    assert_eq!(encode_frame(b"hi"), vec![2, 0, 0, 0, b'h', b'i']);
    assert_eq!(encode_frame(b""), vec![0, 0, 0, 0]);
    let body = vec![7u8; 300];
    let frame = encode_frame(&body);
    assert_eq!(&frame[..4], &[44, 1, 0, 0]);
    assert_eq!(frame.len(), 304);
}

#[test]
fn header_length() {
    assert_eq!(frame_body_len(&[44, 1, 0, 0]), 300);
    assert_eq!(frame_body_len(&[1, 2, 3, 4, 99]), 0x0403_0201);
    assert_eq!(frame_body_len(&[255, 255, 255, 255]), u32::MAX);
}

#[test]
fn decode_complete_frames_and_keep_partial() {
    let mut buf = encode_frame(b"{\"type\":\"Shutdown\"}");
    buf.extend(encode_frame(b"ab"));
    let complete = buf.len();
    buf.extend([5, 0, 0, 0, b'x']);
    let (bodies, used) = decode_frames(&buf);
    assert_eq!(bodies, vec![b"{\"type\":\"Shutdown\"}".to_vec(), b"ab".to_vec()]);
    assert_eq!(used, complete);
}

#[test]
fn decode_short_header() {
    let (bodies, used) = decode_frames(&[1, 0]);
    assert!(bodies.is_empty());
    assert_eq!(used, 0);
}

#[test]
fn frames_roundtrip() {
    let messages: Vec<Vec<u8>> = vec![b"one".to_vec(), Vec::new(), vec![0u8, 255, 10]];
    let mut stream = Vec::new();
    for m in &messages {
        stream.extend(encode_frame(m));
    }
    let (bodies, used) = decode_frames(&stream);
    assert_eq!(bodies, messages);
    assert_eq!(used, stream.len());
}

#[test]
fn decoding_resumes_after_partial_reads() {
    let messages: Vec<Vec<u8>> = vec![b"{\"type\":\"Init\"}".to_vec(), b"x".to_vec(), vec![1, 2, 3, 4, 5]];
    let mut stream = Vec::new();
    for m in &messages {
        stream.extend(encode_frame(m));
    }
    for cut in 0..=stream.len() {
        let (first, used) = decode_frames(&stream[..cut]);
        let mut carried = stream[used..cut].to_vec();
        carried.extend_from_slice(&stream[cut..]);
        let (second, _) = decode_frames(&carried);
        let mut all = first;
        all.extend(second);
        assert_eq!(all, messages, "cut at {cut}");
    }
}
