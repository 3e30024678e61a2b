use lpc_iap::hex::{nibble_digit, parse_hex, u32_text, u8_digits, upper_hex_text};

#[test]
fn nibble_digits_lower_case() {
    assert_eq!(nibble_digit(0), b'0');
    assert_eq!(nibble_digit(9), b'9');
    assert_eq!(nibble_digit(10), b'a');
    assert_eq!(nibble_digit(0xab), b'b');
    assert_eq!(nibble_digit(0xff), b'f');
}

#[test]
fn byte_digits_high_first() {
    assert_eq!(&u8_digits(0x3c), b"3c");
    assert_eq!(&u8_digits(0x05), b"05");
    assert_eq!(&u8_digits(0xf0), b"f0");
}

#[test]
fn word_text() {
    assert_eq!(&u32_text(0xdead_beef), b"0xdeadbeef");
    assert_eq!(&u32_text(0x10), b"0x00000010");
    assert_eq!(&u32_text(0), b"0x00000000");
}

#[test]
fn upper_hex_without_leading_zeros() {
    assert_eq!(upper_hex_text(0), b"0".to_vec());
    assert_eq!(upper_hex_text(0xff), b"FF".to_vec());
    assert_eq!(upper_hex_text(0x1000_0000), b"10000000".to_vec());
    assert_eq!(upper_hex_text(0x1_0008), b"10008".to_vec());
}

#[test]
fn parse_hex_numbers() {
    assert_eq!(parse_hex(b"0x10"), Some(16));
    assert_eq!(parse_hex(b"10"), Some(16));
    assert_eq!(parse_hex(b"0x0x1F"), Some(31));
    assert_eq!(parse_hex(b"0xaBc"), Some(0xabc));
    assert_eq!(parse_hex(b"+ff"), Some(255));
    assert_eq!(parse_hex(b"0x+ff"), Some(255));
    assert_eq!(parse_hex(b"0x00"), Some(0));
    assert_eq!(parse_hex(b"0"), Some(0));
}

#[test]
fn parse_hex_rejects() {
    assert_eq!(parse_hex(b""), None);
    assert_eq!(parse_hex(b"0x"), None);
    assert_eq!(parse_hex(b"+"), None);
    assert_eq!(parse_hex(b"++1"), None);
    assert_eq!(parse_hex(b"-1"), None);
    assert_eq!(parse_hex(b"1g"), None);
    assert_eq!(parse_hex(b"0X10"), None);
    assert_eq!(parse_hex(b" 10"), None);
}

#[test]
fn parse_hex_overflow() {
    let max = format!("0x{:X}", usize::MAX);
    assert_eq!(parse_hex(max.as_bytes()), Some(usize::MAX));
    let over = format!("0x1{:X}", usize::MAX);
    assert_eq!(parse_hex(over.as_bytes()), None);
}

#[test]
fn printed_values_read_back() {
    for v in [0u32, 1, 0x8000, 0xdead_beef, u32::MAX] {
        assert_eq!(parse_hex(&u32_text(v)), Some(v as usize));
        let mut t = b"0x".to_vec();
        t.extend(upper_hex_text(v as usize));
        assert_eq!(parse_hex(&t), Some(v as usize));
    }
}

#[test]
fn parse_hex_matches_std() {
    for s in ["1f", "FFFF", "+7", "0", "abc", "12345678"] {
        assert_eq!(parse_hex(s.as_bytes()), usize::from_str_radix(s, 16).ok());
    }
}
