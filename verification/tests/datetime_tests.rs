use travel_core::datetime::{calculate_duration, parse_datetime};

#[test]
fn duration_forward() {
    let d = calculate_duration("2024-01-01T10:00:00+09:00", "2024-01-01T12:30:00+09:00");
    assert_eq!(d.unwrap(), 150);
}

#[test]
fn duration_reversed() {
    let d = calculate_duration("2024-01-01T12:30:00+09:00", "2024-01-01T10:00:00+09:00");
    assert_eq!(d.unwrap(), -150);
}

#[test]
fn duration_across_offsets() {
    // 10:00+09:00 is 01:00 universal; 02:00Z is one hour later.
    let d = calculate_duration("2024-01-01T10:00:00+09:00", "2024-01-01T02:00:00Z");
    assert_eq!(d.unwrap(), 60);
}

#[test]
fn duration_truncates_toward_zero() {
    let d = calculate_duration("2024-01-01T10:00:00Z", "2024-01-01T10:01:59Z");
    assert_eq!(d.unwrap(), 1);
    let d = calculate_duration("2024-01-01T10:01:59Z", "2024-01-01T10:00:00Z");
    assert_eq!(d.unwrap(), -1);
}

#[test]
fn duration_bad_start() {
    let d = calculate_duration("not-a-date", "2024-01-01T10:00:00Z");
    assert!(d.unwrap_err().message.starts_with("Invalid start datetime: "));
}

#[test]
fn duration_bad_end() {
    let d = calculate_duration("2024-01-01T10:00:00Z", "nope");
    assert!(d.unwrap_err().message.starts_with("Invalid end datetime: "));
}

#[test]
fn duration_both_bad_names_start() {
    let d = calculate_duration("bad", "also-bad");
    assert!(d.unwrap_err().message.starts_with("Invalid start datetime: "));
}

#[test]
fn parse_datetime_display() {
    assert_eq!(parse_datetime("2024-01-01T10:00:00Z").unwrap(), "2024-01-01 10:00");
}

#[test]
fn parse_datetime_keeps_offset_clock() {
    assert_eq!(parse_datetime("2024-01-01T12:30:00+09:00").unwrap(), "2024-01-01 12:30");
}

#[test]
fn parse_datetime_pads_fields() {
    assert_eq!(parse_datetime("0987-03-04T05:06:07Z").unwrap(), "0987-03-04 05:06");
}

#[test]
fn parse_datetime_malformed() {
    let e = parse_datetime("not-a-date").unwrap_err();
    assert!(e.message.starts_with("Invalid datetime: "));
    // The parser's own account of the fault follows the colon.
    assert!(e.message.len() > "Invalid datetime: ".len());
}

#[test]
fn parse_datetime_missing_offset() {
    assert!(parse_datetime("2024-01-01T10:00:00").is_err());
}
