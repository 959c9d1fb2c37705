use sandbox_backend::hex::{bytes_to_hex, hex_to_bytes};

#[test]
fn hex_of_bytes() {
    assert_eq!(bytes_to_hex(&[0x00, 0xab, 0xff, 0x10]), "00abff10");
    assert_eq!(bytes_to_hex(&[]), "");
}

#[test]
fn bytes_of_hex() {
    assert_eq!(hex_to_bytes("00abff10"), Ok(vec![0x00, 0xab, 0xff, 0x10]));
    assert_eq!(hex_to_bytes("ABcd"), Ok(vec![0xab, 0xcd]));
    assert_eq!(hex_to_bytes(""), Ok(vec![]));
}

#[test]
fn hex_pair_with_plus_sign() {
    assert_eq!(hex_to_bytes("+f"), Ok(vec![0x0f]));
}

#[test]
fn hex_invalid_digit() {
    assert_eq!(hex_to_bytes("zz"), Err("invalid digit found in string".to_string()));
    assert_eq!(hex_to_bytes("00g1"), Err("invalid digit found in string".to_string()));
    assert_eq!(hex_to_bytes("-1"), Err("invalid digit found in string".to_string()));
}

#[test]
fn hex_roundtrip_all_bytes() {
    let bytes: Vec<u8> = (0..=255u8).collect();
    assert_eq!(hex_to_bytes(&bytes_to_hex(&bytes)), Ok(bytes));
}
