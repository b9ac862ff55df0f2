use rustpaymentapi::hex::{is_hex_digit_byte, parse_hex, push_hex};

#[test]
fn parse_reads_big_endian_lowercase_hex() {
    let v = b"00ff".to_vec();
    assert_eq!(parse_hex(&v, 0, 4), 0xff);
    assert_eq!(parse_hex(&v, 2, 2), 0xff);
    assert_eq!(parse_hex(&v, 0, 2), 0);
    let v = b"0af7651916cd43dd8448eb211c80319c".to_vec();
    assert_eq!(parse_hex(&v, 0, 32), 0x0af7651916cd43dd8448eb211c80319cu128);
}

#[test]
fn push_renders_fixed_width_lowercase_hex() {
    let mut out = Vec::new();
    push_hex(&mut out, 0xb7ad6b7169203331u128, 16);
    assert_eq!(out, b"b7ad6b7169203331".to_vec());
    let mut out = Vec::new();
    push_hex(&mut out, 1, 2);
    assert_eq!(out, b"01".to_vec());
    push_hex(&mut out, 0, 2);
    assert_eq!(out, b"0100".to_vec(), "pushing appends after what is there");
}

#[test]
fn push_then_parse_round_trips() {
    for n in [0u128, 1, 15, 16, 0xdead_beef, u128::MAX] {
        let mut out = Vec::new();
        push_hex(&mut out, n, 32);
        assert_eq!(out.len(), 32);
        assert_eq!(parse_hex(&out, 0, 32), n);
    }
}

#[test]
fn digit_classification_is_lowercase_only() {
    for b in b"0123456789abcdef" {
        assert!(is_hex_digit_byte(*b));
    }
    for b in b"ABCDEFg/:`\x00 -" {
        assert!(!is_hex_digit_byte(*b));
    }
}
