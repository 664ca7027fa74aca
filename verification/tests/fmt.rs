use virtual_machine::format::{dec_bytes_signed, utf8_bytes};

#[test]
fn decimal_of_zero_and_positive_values() {
    assert_eq!(dec_bytes_signed(0), b"0".to_vec());
    assert_eq!(dec_bytes_signed(7), b"7".to_vec());
    assert_eq!(dec_bytes_signed(2_147_483_647), b"2147483647".to_vec());
}

#[test]
fn decimal_of_negative_values() {
    assert_eq!(dec_bytes_signed(0xFFFF_FFFF), b"-1".to_vec());
    assert_eq!(dec_bytes_signed(0x8000_0000), b"-2147483648".to_vec());
    assert_eq!(dec_bytes_signed(0xFFFF_FF9C), b"-100".to_vec());
}

#[test]
fn utf8_of_ascii_and_high_bytes() {
    assert_eq!(utf8_bytes(0x41), vec![0x41]);
    assert_eq!(utf8_bytes(0x7F), vec![0x7F]);
    assert_eq!(utf8_bytes(0x80), vec![0xC2, 0x80]);
    assert_eq!(utf8_bytes(0xFF), vec![0xC3, 0xBF]);
}
