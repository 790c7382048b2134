use code_runner::clock::{format_clock, prepare_clock, ClockError, Timestamp};

#[test]
fn renders_millisecond_clock_argument() {
    let s = prepare_clock("2024-03-05T07:08:09.123456789+02:00").unwrap();
    assert_eq!(s, "2024-03-05 07:08:09.123");
}

#[test]
fn keeps_local_fields_of_any_offset() {
    assert_eq!(prepare_clock("1996-12-19T16:39:57-08:00").unwrap(), "1996-12-19 16:39:57.000");
    assert_eq!(prepare_clock("0001-01-01T00:00:00Z").unwrap(), "0001-01-01 00:00:00.000");
}

#[test]
fn leap_second_prints_sixty() {
    assert_eq!(prepare_clock("2016-12-31T23:59:60.5Z").unwrap(), "2016-12-31 23:59:60.500");
}

#[test]
fn malformed_datetime_is_rejected() {
    assert!(matches!(prepare_clock("not a date"), Err(ClockError::InvalidDatetime)));
    assert!(matches!(prepare_clock("2024-13-01T00:00:00Z"), Err(ClockError::InvalidDatetime)));
    assert!(matches!(prepare_clock("2024-01-01 00:00:00"), Err(ClockError::InvalidDatetime)));
}

#[test]
fn formats_a_timestamp() {
    let t = Timestamp { year: 987, month: 1, day: 2, hour: 3, minute: 4, second: 5, nanosecond: 6_000_000 };
    assert_eq!(format_clock(&t), "0987-01-02 03:04:05.006");
}
