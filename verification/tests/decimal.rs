use iceoryx2_node::decimal::{encode_decimal, parse_decimal};

#[test]
fn zero_is_written_as_one_digit() {
    assert_eq!(encode_decimal(0), b"0".to_vec());
}

#[test]
fn numbers_are_written_without_leading_zeros() {
    assert_eq!(encode_decimal(7), b"7".to_vec());
    assert_eq!(encode_decimal(10), b"10".to_vec());
    assert_eq!(encode_decimal(1234567890), b"1234567890".to_vec());
}

#[test]
fn the_largest_number_has_thirty_nine_digits() {
    let digits = encode_decimal(u128::MAX);
    assert_eq!(digits, b"340282366920938463463374607431768211455".to_vec());
    assert_eq!(digits.len(), 39);
}

#[test]
fn the_notation_agrees_with_the_standard_formatting() {
    for value in [0u128, 9, 10, 99, 100, 4711, 1 << 64, u128::MAX - 1, u128::MAX] {
        assert_eq!(encode_decimal(value), format!("{}", value).into_bytes());
    }
}

#[test]
fn reading_gives_back_what_was_written() {
    for value in [0u128, 1, 9, 10, 255, 65536, 1 << 100, u128::MAX] {
        assert_eq!(parse_decimal(&encode_decimal(value)), Some(value));
    }
}

#[test]
fn a_leading_plus_sign_is_read_over() {
    assert_eq!(parse_decimal(b"+42"), Some(42));
    assert_eq!(parse_decimal(b"+0"), Some(0));
}

#[test]
fn leading_zeros_count_for_nothing() {
    assert_eq!(parse_decimal(b"007"), Some(7));
    assert_eq!(parse_decimal(b"0000000000000000000000000000000000000000000001"), Some(1));
}

#[test]
fn texts_that_are_no_numbers_are_refused() {
    assert_eq!(parse_decimal(b""), None);
    assert_eq!(parse_decimal(b"+"), None);
    assert_eq!(parse_decimal(b"-1"), None);
    assert_eq!(parse_decimal(b"++1"), None);
    assert_eq!(parse_decimal(b"12a"), None);
    assert_eq!(parse_decimal(b"1 2"), None);
    assert_eq!(parse_decimal(b" 12"), None);
    assert_eq!(parse_decimal(b"1+2"), None);
    assert_eq!(parse_decimal(b"0x10"), None);
}

#[test]
fn numbers_beyond_128_bits_are_refused() {
    assert_eq!(
        parse_decimal(b"340282366920938463463374607431768211455"),
        Some(u128::MAX)
    );
    assert_eq!(parse_decimal(b"340282366920938463463374607431768211456"), None);
    assert_eq!(parse_decimal(b"3402823669209384634633746074317682114550"), None);
    assert_eq!(parse_decimal(b"999999999999999999999999999999999999999"), None);
}

#[test]
fn reading_agrees_with_the_standard_parsing() {
    for text in [
        "", "+", "-", "0", "+0", "-0", "00", "12", "+12", "1_000", "٣", "340282366920938463463374607431768211455",
        "340282366920938463463374607431768211456", "12 ", "９",
    ] {
        assert_eq!(parse_decimal(text.as_bytes()), text.parse::<u128>().ok(), "{:?}", text);
    }
}
