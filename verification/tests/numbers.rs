//! Parsing and formatting of wire-precision decimal values.

use dp832::fixed::{format_fixed, parse_fixed, parse_u8, Fixed, MAX_THOUSANDTHS};

#[test]
fn parse_plain_decimal() {
    assert_eq!(parse_fixed(b"1.234"), Some(Fixed { thousandths: 1234 }));
    assert_eq!(parse_fixed(b"12.500"), Some(Fixed { thousandths: 12500 }));
    assert_eq!(parse_fixed(b"0.000"), Some(Fixed { thousandths: 0 }));
    assert_eq!(parse_fixed(b"42"), Some(Fixed { thousandths: 42000 }));
}

#[test]
fn parse_short_fractions() {
    assert_eq!(parse_fixed(b"5."), Some(Fixed { thousandths: 5000 }));
    assert_eq!(parse_fixed(b".5"), Some(Fixed { thousandths: 500 }));
    assert_eq!(parse_fixed(b"1.2"), Some(Fixed { thousandths: 1200 }));
    assert_eq!(parse_fixed(b"1.25"), Some(Fixed { thousandths: 1250 }));
}

#[test]
fn parse_truncates_past_third_fraction_digit() {
    assert_eq!(parse_fixed(b"1.2345"), Some(Fixed { thousandths: 1234 }));
    assert_eq!(parse_fixed(b"0.0005"), Some(Fixed { thousandths: 0 }));
}

#[test]
fn parse_negative() {
    assert_eq!(parse_fixed(b"-0.005"), Some(Fixed { thousandths: -5 }));
    assert_eq!(parse_fixed(b"-12.500"), Some(Fixed { thousandths: -12500 }));
    assert_eq!(parse_fixed(b"-0.000"), Some(Fixed { thousandths: 0 }));
}

#[test]
fn parse_rejects_malformed_text() {
    assert_eq!(parse_fixed(b""), None);
    assert_eq!(parse_fixed(b"."), None);
    assert_eq!(parse_fixed(b"-"), None);
    assert_eq!(parse_fixed(b"-."), None);
    assert_eq!(parse_fixed(b"--1"), None);
    assert_eq!(parse_fixed(b"1.2.3"), None);
    assert_eq!(parse_fixed(b"1x"), None);
    assert_eq!(parse_fixed(b" 1"), None);
    assert_eq!(parse_fixed(b"1 "), None);
}

#[test]
fn parse_rejects_out_of_range_magnitude() {
    assert_eq!(parse_fixed(b"999999999999.999"), Some(Fixed { thousandths: MAX_THOUSANDTHS }));
    assert_eq!(parse_fixed(b"1000000000000.000"), None);
    assert_eq!(parse_fixed(b"99999999999999999999"), None);
}

#[test]
fn format_three_decimals() {
    assert_eq!(format_fixed(Fixed { thousandths: 0 }), b"0.000".to_vec());
    assert_eq!(format_fixed(Fixed { thousandths: 12500 }), b"12.500".to_vec());
    assert_eq!(format_fixed(Fixed { thousandths: 1234 }), b"1.234".to_vec());
    assert_eq!(format_fixed(Fixed { thousandths: 7 }), b"0.007".to_vec());
    assert_eq!(format_fixed(Fixed { thousandths: -5 }), b"-0.005".to_vec());
    assert_eq!(format_fixed(Fixed { thousandths: -12500 }), b"-12.500".to_vec());
}

#[test]
fn format_then_parse_round_trips() {
    for t in [0i64, 1, -1, 999, 1000, 12500, -12500, 123456789, MAX_THOUSANDTHS, -MAX_THOUSANDTHS]
    {
        let v = Fixed { thousandths: t };
        assert_eq!(parse_fixed(&format_fixed(v)), Some(v));
    }
}

#[test]
fn parse_channel_numbers() {
    assert_eq!(parse_u8(b"1"), Some(1));
    assert_eq!(parse_u8(b"2"), Some(2));
    assert_eq!(parse_u8(b"255"), Some(255));
    assert_eq!(parse_u8(b"000"), Some(0));
    assert_eq!(parse_u8(b"256"), None);
    assert_eq!(parse_u8(b""), None);
    assert_eq!(parse_u8(b"1x"), None);
    assert_eq!(parse_u8(b"-1"), None);
    assert_eq!(parse_u8(b"1.0"), None);
}
