use project_core::hex::{bytes_to_hex, convert_to_hex, hex_to_bytes};

#[test]
fn hex_of_small_and_large_bytes() {
    assert_eq!(convert_to_hex(0), "00");
    assert_eq!(convert_to_hex(10), "0A");
    assert_eq!(convert_to_hex(0x10), "10");
    assert_eq!(convert_to_hex(0xE2), "E2");
    assert_eq!(convert_to_hex(255), "FF");
}

#[test]
fn hex_of_bytes_joins_pairs() {
    assert_eq!(bytes_to_hex(&vec![0xE2, 0x00, 0x34, 0x12]), "E2003412");
    assert_eq!(bytes_to_hex(&vec![]), "");
}

#[test]
fn hex_text_decodes() {
    assert_eq!(hex_to_bytes("E2003412"), Some(vec![0xE2, 0x00, 0x34, 0x12]));
    assert_eq!(hex_to_bytes("e2ff"), Some(vec![0xE2, 0xFF]));
    assert_eq!(hex_to_bytes(""), Some(vec![]));
}

#[test]
fn odd_length_is_refused() {
    assert_eq!(hex_to_bytes("E20"), None);
}

#[test]
fn non_hex_is_refused() {
    assert_eq!(hex_to_bytes("E2G0"), None);
    assert_eq!(hex_to_bytes("-1"), None);
    assert_eq!(hex_to_bytes("é"), None);
}

#[test]
fn plus_sign_and_one_digit_is_a_byte() {
    assert_eq!(hex_to_bytes("+F"), Some(vec![0x0F]));
    assert_eq!(hex_to_bytes("01+a"), Some(vec![0x01, 0x0A]));
}

#[test]
fn hex_roundtrip() {
    let bytes: Vec<u8> = (0..=255).collect();
    assert_eq!(hex_to_bytes(&bytes_to_hex(&bytes)), Some(bytes));
}

#[test]
fn matches_std_radix_parse() {
    for text in ["00", "7f", "+7", "G1", "1 ", " 1", "++", "-0", "FF"] {
        assert_eq!(hex_to_bytes(text).map(|v| v[0]), u8::from_str_radix(text, 16).ok());
    }
}
