use plantstation::text::{decimal_string, digit_str, upper_hex_string};

#[test]
fn decimal_of_bytes() {
    assert_eq!(decimal_string(0), "0");
    assert_eq!(decimal_string(7), "7");
    assert_eq!(decimal_string(10), "10");
    assert_eq!(decimal_string(43), "43");
    assert_eq!(decimal_string(100), "100");
    assert_eq!(decimal_string(255), "255");
}

#[test]
fn decimal_matches_std_for_every_byte() {
    for n in 0..=255u8 {
        assert_eq!(decimal_string(n), format!("{}", n));
    }
}

#[test]
fn upper_hex_of_bytes() {
    assert_eq!(upper_hex_string(0), "0");
    assert_eq!(upper_hex_string(0x0A), "A");
    assert_eq!(upper_hex_string(0x10), "10");
    assert_eq!(upper_hex_string(0xBB), "BB");
    assert_eq!(upper_hex_string(0xFF), "FF");
}

#[test]
fn upper_hex_matches_std_for_every_byte() {
    for n in 0..=255u8 {
        assert_eq!(upper_hex_string(n), format!("{:X}", n));
    }
}

#[test]
fn digits_are_single_characters() {
    assert_eq!(digit_str(0), "0");
    assert_eq!(digit_str(9), "9");
    assert_eq!(digit_str(10), "A");
    assert_eq!(digit_str(15), "F");
}
