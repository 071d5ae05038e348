use proxy::ports::{parse_port_range, PortRangeError};

#[test]
fn port_range_parses() {
    assert_eq!(parse_port_range("1024-5000"), Ok((1024, 5000)));
    assert_eq!(parse_port_range("0-65535"), Ok((0, 65535)));
    assert_eq!(parse_port_range("80-80"), Ok((80, 80)));
    assert_eq!(parse_port_range("+22-+23"), Ok((22, 23)));
    assert_eq!(parse_port_range("007-010"), Ok((7, 10)));
}

#[test]
fn port_range_format_errors() {
    assert_eq!(parse_port_range("1024"), Err(PortRangeError::Format));
    assert_eq!(parse_port_range(""), Err(PortRangeError::Format));
    assert_eq!(parse_port_range("1-2-3"), Err(PortRangeError::Format));
    assert_eq!(parse_port_range("--"), Err(PortRangeError::Format));
}

#[test]
fn port_range_bad_numbers() {
    assert_eq!(parse_port_range("-5000"), Err(PortRangeError::InvalidStart));
    assert_eq!(parse_port_range("65536-65536"), Err(PortRangeError::InvalidStart));
    assert_eq!(parse_port_range("a1-2"), Err(PortRangeError::InvalidStart));
    assert_eq!(parse_port_range("+-2"), Err(PortRangeError::InvalidStart));
    assert_eq!(parse_port_range("1-"), Err(PortRangeError::InvalidEnd));
    assert_eq!(parse_port_range("1-99999999999"), Err(PortRangeError::InvalidEnd));
    assert_eq!(parse_port_range("1- 2"), Err(PortRangeError::InvalidEnd));
    assert_eq!(parse_port_range("5000-1024"), Err(PortRangeError::StartAfterEnd));
}

#[test]
fn port_range_agrees_with_std_parse() {
    for text in ["0", "65535", "65536", "+1", "+", "", "12a", "٣"] {
        let ours = parse_port_range(&format!("{}-65535", text));
        match text.parse::<u16>() {
            Ok(v) => assert_eq!(ours, Ok((v, 65535))),
            Err(_) => assert_eq!(ours, Err(PortRangeError::InvalidStart)),
        }
    }
}
