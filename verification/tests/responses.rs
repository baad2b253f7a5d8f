//! Typed parsing of response lines.

use dp832::fixed::Fixed;
use dp832::protocol::{
    parse, parse_error, parse_identify, parse_measurement, parse_toggle, strip_line, Error,
    Measurement,
};

#[test]
fn every_malformed_response_maps_to_the_parse_error() {
    assert_eq!(parse_error(), Error::Parse);
}

#[test]
fn strip_removes_one_trailing_newline() {
    assert_eq!(strip_line(b"ON\n".to_vec()), b"ON".to_vec());
    assert_eq!(strip_line(b"ON".to_vec()), b"ON".to_vec());
    assert_eq!(strip_line(b"\n".to_vec()), b"".to_vec());
    assert_eq!(strip_line(b"".to_vec()), b"".to_vec());
    assert_eq!(strip_line(b"a\n\n".to_vec()), b"a\n".to_vec());
}

#[test]
fn toggle_on_off_exactly() {
    assert_eq!(parse_toggle(b"ON"), Ok(true));
    assert_eq!(parse_toggle(b"OFF"), Ok(false));
    assert_eq!(parse_toggle(b"MAYBE"), Err(Error::Parse));
    assert_eq!(parse_toggle(b"on"), Err(Error::Parse));
    assert_eq!(parse_toggle(b"ON "), Err(Error::Parse));
    assert_eq!(parse_toggle(b""), Err(Error::Parse));
}

#[test]
fn measurement_three_numeric_fields() {
    assert_eq!(
        parse_measurement(b"1.234,5.678,9.012"),
        Ok(Measurement {
            voltage: Fixed { thousandths: 1234 },
            current: Fixed { thousandths: 5678 },
            power: Fixed { thousandths: 9012 },
        })
    );
}

#[test]
fn measurement_rejects_wrong_field_count() {
    assert_eq!(parse_measurement(b"1.234,5.678"), Err(Error::Parse));
    assert_eq!(parse_measurement(b"1.234"), Err(Error::Parse));
    assert_eq!(parse_measurement(b"1.0,2.0,3.0,4.0"), Err(Error::Parse));
    assert_eq!(parse_measurement(b""), Err(Error::Parse));
}

#[test]
fn measurement_rejects_non_numeric_field() {
    assert_eq!(parse_measurement(b"1.234,x,9.012"), Err(Error::Parse));
    assert_eq!(parse_measurement(b"1.234,5.678,"), Err(Error::Parse));
    assert_eq!(parse_measurement(b",5.678,9.012"), Err(Error::Parse));
}

#[test]
fn numeric_line_parse_maps_failure_to_parse_error() {
    assert_eq!(parse(b"2.500"), Ok(Fixed { thousandths: 2500 }));
    assert_eq!(parse(b"garbage"), Err(Error::Parse));
}

#[test]
fn identify_four_fields() {
    let id = parse_identify(b"RIGOL TECHNOLOGIES,DP832,DP8A0000000000,00.01.14").unwrap();
    assert_eq!(id.manufacturer, "RIGOL TECHNOLOGIES");
    assert_eq!(id.model, "DP832");
    assert_eq!(id.sn, "DP8A0000000000");
    assert_eq!(id.version, "00.01.14");
}

#[test]
fn identify_allows_empty_fields() {
    let id = parse_identify(b"a,,c,").unwrap();
    assert_eq!(id.manufacturer, "a");
    assert_eq!(id.model, "");
    assert_eq!(id.sn, "c");
    assert_eq!(id.version, "");
}

#[test]
fn identify_rejects_fewer_than_four_fields() {
    assert_eq!(parse_identify(b"a,b,c"), Err(Error::Parse));
    assert_eq!(parse_identify(b"a,b"), Err(Error::Parse));
    assert_eq!(parse_identify(b""), Err(Error::Parse));
}

#[test]
fn identify_takes_first_four_fields_and_ignores_extras() {
    let id = parse_identify(b"a,b,c,d,e").unwrap();
    assert_eq!(id.manufacturer, "a");
    assert_eq!(id.model, "b");
    assert_eq!(id.sn, "c");
    assert_eq!(id.version, "d");
    let id = parse_identify(b"RIGOL TECHNOLOGIES,DP832,DP8A0000000000,00.01.14,extra,fields")
        .unwrap();
    assert_eq!(id.version, "00.01.14");
}

#[test]
fn identify_accepts_utf8_fields() {
    let id = parse_identify(b"RIGOL\xc3\xa9,b,c,d").unwrap();
    assert_eq!(id.manufacturer, "RIGOLé");
    assert_eq!(id.version, "d");
}

#[test]
fn identify_decodes_invalid_utf8_with_replacement() {
    let id = parse_identify(b"a,b,c,\xffd").unwrap();
    assert_eq!(id.version, "\u{FFFD}d");
    let id = parse_identify(b"\xffa,b,c,d").unwrap();
    assert_eq!(id.manufacturer, "\u{FFFD}a");
}

#[test]
fn identify_ignores_non_ascii_past_the_fourth_field() {
    let id = parse_identify(b"a,b,c,d,\xff").unwrap();
    assert_eq!(id.version, "d");
}
