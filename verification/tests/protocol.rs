use sandbox_backend::protocol::{decode_payload, encode_payload, ipc_line, ipc_read_on, LineRead, PayloadError};

#[test]
fn payload_text() {
    assert_eq!(encode_payload(b"hello world~"), "aGVsbG8gd29ybGR+");
    assert_eq!(encode_payload(b"a"), "YQ==");
    assert_eq!(encode_payload(b""), "");
}

#[test]
fn payload_decoding() {
    assert_eq!(decode_payload("YQ=="), Ok(b"a".to_vec()));
    assert_eq!(decode_payload(""), Ok(vec![]));
}

#[test]
fn payload_errors() {
    assert_eq!(decode_payload("Y!=="), Err(PayloadError::InvalidByte { offset: 1, byte: b'!' }));
    assert!(matches!(decode_payload("YQ"), Err(PayloadError::InvalidPadding)));
    assert!(matches!(decode_payload("Y"), Err(PayloadError::InvalidLength { .. })));
}

#[test]
fn payload_roundtrip() {
    let data: Vec<u8> = (0..=255u8).rev().collect();
    let text = encode_payload(&data);
    assert_eq!(text.len(), 4 * ((data.len() + 2) / 3));
    assert_eq!(decode_payload(&text), Ok(data));
}

#[test]
fn ipc_lines() {
    assert_eq!(ipc_line("{\"type\":\"delete\"}"), "{\"type\":\"delete\"}\n");
    assert!(ipc_read_on(LineRead::Line { bytes: 12 }));
    assert!(!ipc_read_on(LineRead::Closed));
    assert!(!ipc_read_on(LineRead::Failed));
}
