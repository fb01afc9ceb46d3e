use tox_node::hexstr::{format_key_hex, parse_key_hex, KeyTextError};

#[test]
fn parse_key_hex_accepts_mixed_case() {
    let text = "00FF10aB".repeat(8);
    assert_eq!(text.len(), 64);
    let bytes = parse_key_hex(&text).expect("64 hex digits parse");
    assert_eq!(bytes, [0x00, 0xff, 0x10, 0xab].repeat(8));
    assert_eq!(bytes, hex::decode(&text).unwrap());
}

#[test]
fn parse_key_hex_rejects_bad_digits() {
    let mut text = "aa".repeat(32);
    text.replace_range(10..11, "g");
    assert_eq!(parse_key_hex(&text), Err(KeyTextError::NotHex));
}

#[test]
fn parse_key_hex_rejects_odd_length() {
    assert_eq!(parse_key_hex(&"a".repeat(63)), Err(KeyTextError::NotHex));
}

#[test]
fn parse_key_hex_rejects_wrong_key_size() {
    assert_eq!(parse_key_hex(&"ab".repeat(31)), Err(KeyTextError::WrongLength));
    assert_eq!(parse_key_hex(&"ab".repeat(33)), Err(KeyTextError::WrongLength));
    assert_eq!(parse_key_hex(""), Err(KeyTextError::WrongLength));
}

#[test]
fn format_key_hex_is_uppercase_digit_pairs() {
    let bytes = vec![0x00u8, 0xab, 0xff, 0x09, 0x10];
    assert_eq!(format_key_hex(&bytes), "00ABFF0910");
    assert_eq!(format_key_hex(&Vec::new()), "");
}

#[test]
fn key_hex_round_trips() {
    let bytes: Vec<u8> = (0..32u8).map(|i| i.wrapping_mul(7)).collect();
    let text = format_key_hex(&bytes);
    assert_eq!(parse_key_hex(&text).expect("formatted key parses"), bytes);
}
