use serwasm::port::{parse_port, port_setting, PortError};

#[test]
fn parses_service_defaults() {
    assert_eq!(parse_port("7070"), Ok(7070));
    assert_eq!(parse_port("50055"), Ok(50055));
    assert_eq!(parse_port("8080"), Ok(8080));
}

#[test]
fn parses_bounds_and_plus_sign() {
    assert_eq!(parse_port("0"), Ok(0));
    assert_eq!(parse_port("65535"), Ok(65535));
    assert_eq!(parse_port("+80"), Ok(80));
    assert_eq!(parse_port("0000443"), Ok(443));
}

#[test]
fn empty_text_is_refused() {
    assert_eq!(parse_port(""), Err(PortError::Empty));
}

#[test]
fn stray_characters_are_refused() {
    assert_eq!(parse_port("+"), Err(PortError::InvalidDigit));
    assert_eq!(parse_port("-"), Err(PortError::InvalidDigit));
    assert_eq!(parse_port("-1"), Err(PortError::InvalidDigit));
    assert_eq!(parse_port(" 80"), Err(PortError::InvalidDigit));
    assert_eq!(parse_port("80 "), Err(PortError::InvalidDigit));
    assert_eq!(parse_port("8o"), Err(PortError::InvalidDigit));
    assert_eq!(parse_port("++1"), Err(PortError::InvalidDigit));
    assert_eq!(parse_port("٣"), Err(PortError::InvalidDigit));
}

#[test]
fn large_values_overflow() {
    assert_eq!(parse_port("65536"), Err(PortError::PosOverflow));
    assert_eq!(parse_port("100000"), Err(PortError::PosOverflow));
    assert_eq!(parse_port("700000x"), Err(PortError::PosOverflow));
    assert_eq!(parse_port("6553x"), Err(PortError::InvalidDigit));
}

#[test]
fn agrees_with_std_parse() {
    let samples = [
        "", "+", "-", "0", "7", "+7", "65535", "65536", "99999", "123456", "12a", "a12", "+-1",
        "00065535", "6553x5", "99999x", "1 ", "٣", "+0",
    ];
    for s in samples {
        let ours = parse_port(s);
        let std_result = s.parse::<u16>();
        match (ours, std_result) {
            (Ok(a), Ok(b)) => assert_eq!(a, b, "{s}"),
            (Err(e), Err(f)) => {
                let kind = match f.kind() {
                    std::num::IntErrorKind::Empty => PortError::Empty,
                    std::num::IntErrorKind::InvalidDigit => PortError::InvalidDigit,
                    std::num::IntErrorKind::PosOverflow => PortError::PosOverflow,
                    other => panic!("unexpected kind {other:?}"),
                };
                assert_eq!(e, kind, "{s}");
                assert_eq!(e.description(), f.to_string(), "{s}");
            }
            (a, b) => panic!("{s}: {a:?} vs {b:?}"),
        }
    }
}

#[test]
fn setting_absent_uses_default() {
    assert_eq!(port_setting(None, 7070), Ok(7070));
}

#[test]
fn setting_present_is_parsed() {
    assert_eq!(port_setting(Some("9090"), 7070), Ok(9090));
    assert_eq!(port_setting(Some("x"), 7070), Err(PortError::InvalidDigit));
    assert_eq!(port_setting(Some(""), 7070), Err(PortError::Empty));
}

#[test]
fn error_descriptions() {
    assert_eq!(PortError::Empty.description(), "cannot parse integer from empty string");
    assert_eq!(PortError::InvalidDigit.description(), "invalid digit found in string");
    assert_eq!(PortError::PosOverflow.description(), "number too large to fit in target type");
}

#[test]
fn every_port_reads_back_from_its_decimal_text() {
    for n in 0..=u16::MAX {
        assert_eq!(parse_port(&n.to_string()), Ok(n));
    }
}
