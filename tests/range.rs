use port_cat::range::{parse_port, parse_range, plan_scan, PortRange, RangeFormatError};

#[test]
fn malformed_ranges_are_refused() {
    assert_eq!(parse_range("abc-100"), Err(RangeFormatError::BadStart));
    assert_eq!(parse_range("100"), Err(RangeFormatError::Separator));
    assert_eq!(parse_range("500-100"), Err(RangeFormatError::StartAfterEnd));
    assert_eq!(plan_scan("500-100"), Err(RangeFormatError::StartAfterEnd));
}

#[test]
fn other_range_refusals() {
    assert_eq!(parse_range(""), Err(RangeFormatError::Separator));
    assert_eq!(parse_range("1-2-3"), Err(RangeFormatError::Separator));
    assert_eq!(parse_range("-100"), Err(RangeFormatError::BadStart));
    assert_eq!(parse_range("100-"), Err(RangeFormatError::BadEnd));
    assert_eq!(parse_range("1-65536"), Err(RangeFormatError::BadEnd));
    assert_eq!(parse_range(" 1-2"), Err(RangeFormatError::BadStart));
}

#[test]
fn valid_ranges() {
    assert_eq!(parse_range("1-1000"), Ok(PortRange { start: 1, end: 1000 }));
    assert_eq!(parse_range("80-80"), Ok(PortRange { start: 80, end: 80 }));
    assert_eq!(parse_range("+0-65535"), Ok(PortRange { start: 0, end: 65535 }));
}

#[test]
fn port_numbers() {
    assert_eq!(parse_port("0"), Some(0));
    assert_eq!(parse_port("007"), Some(7));
    assert_eq!(parse_port("+22"), Some(22));
    assert_eq!(parse_port("65535"), Some(65535));
    assert_eq!(parse_port("65536"), None);
    assert_eq!(parse_port("999999999999"), None);
    assert_eq!(parse_port(""), None);
    assert_eq!(parse_port("+"), None);
    assert_eq!(parse_port("-1"), None);
    assert_eq!(parse_port("8a"), None);
}

#[test]
fn range_ports_are_inclusive() {
    assert_eq!(plan_scan("20-25"), Ok(vec![20, 21, 22, 23, 24, 25]));
    assert_eq!(plan_scan("443-443"), Ok(vec![443]));
    let all = PortRange { start: 0, end: 65535 }.ports();
    assert_eq!(all.len(), 65536);
    assert_eq!(all[0], 0);
    assert_eq!(all[65535], 65535);
    let top = PortRange { start: 65530, end: 65535 }.ports();
    assert_eq!(top, vec![65530, 65531, 65532, 65533, 65534, 65535]);
}
