use filmstamp::calendar::validate;
use filmstamp::display::format_timestamp;
use filmstamp::errors::StampError;
use filmstamp::field::RawTimestampComponents;

fn raw(year: u16, month: u8, day: u8, hour: u8, minute: u8, second: u8) -> RawTimestampComponents {
    RawTimestampComponents { year, month, day, hour, minute, second }
}

#[test]
fn test_exif_datetime_to_naive_datetime_valid() {
    let result = validate(&raw(2025, 1, 2, 3, 4, 5));

    assert!(result.is_ok());

    let result = result.unwrap();

    assert_eq!(result.year, 2025);
    assert_eq!(result.month, 1);
    assert_eq!(result.day, 2);
    assert_eq!(result.hour, 3);
    assert_eq!(result.minute, 4);
    assert_eq!(result.second, 5);
}

#[test]
fn test_exif_datetime_to_naive_datetime_invalid_date() {
    let result = validate(&raw(2025, 13, 42, 1, 1, 1));

    assert!(result.is_err());
    assert_eq!(result.unwrap_err(), StampError::InvalidCalendarDate);
}

#[test]
fn test_exif_datetime_to_naive_datetime_invalid_time() {
    let result = validate(&raw(2025, 1, 1, 25, 61, 61));

    assert!(result.is_err());
    assert_eq!(result.unwrap_err(), StampError::InvalidCalendarDate);
}

#[test]
fn test_validate_rejects_each_component_independently() {
    // Each bad component alone fails validation while the others stay valid.
    assert!(validate(&raw(2025, 13, 2, 3, 4, 5)).is_err());
    assert!(validate(&raw(2025, 1, 32, 3, 4, 5)).is_err());
    assert!(validate(&raw(2025, 2, 30, 3, 4, 5)).is_err());
    assert!(validate(&raw(2025, 1, 2, 24, 4, 5)).is_err());
    assert!(validate(&raw(2025, 1, 2, 3, 60, 5)).is_err());
    assert!(validate(&raw(2025, 1, 2, 3, 4, 60)).is_err());
    assert!(validate(&raw(2025, 1, 2, 3, 4, 5)).is_ok());
}

#[test]
fn test_validate_leap_year_rules() {
    // A leap year every four years ...
    assert!(validate(&raw(2024, 2, 29, 0, 0, 0)).is_ok());
    assert!(validate(&raw(2023, 2, 29, 0, 0, 0)).is_err());
    // ... except century years ...
    assert!(validate(&raw(2100, 2, 29, 0, 0, 0)).is_err());
    // ... except every fourth century.
    assert!(validate(&raw(2000, 2, 29, 0, 0, 0)).is_ok());
    assert!(validate(&raw(2000, 2, 30, 0, 0, 0)).is_err());
}

#[test]
fn test_validate_month_lengths() {
    assert!(validate(&raw(2025, 4, 31, 0, 0, 0)).is_err());
    assert!(validate(&raw(2025, 4, 30, 0, 0, 0)).is_ok());
    assert!(validate(&raw(2025, 12, 31, 0, 0, 0)).is_ok());
    assert!(validate(&raw(2025, 6, 0, 0, 0, 0)).is_err());
    assert!(validate(&raw(2025, 0, 1, 0, 0, 0)).is_err());
}

#[test]
fn test_format_no_leading_zeros() {
    let t = validate(&raw(2025, 1, 2, 3, 4, 5)).unwrap();
    assert_eq!(format_timestamp(&t).as_str(), "2  1  2025   3:4");
}

#[test]
fn test_format_wide_components() {
    let t = validate(&raw(2000, 12, 31, 23, 59, 0)).unwrap();
    assert_eq!(format_timestamp(&t).as_str(), "31  12  2000   23:59");
}

#[test]
fn test_format_zero_hour_and_minute() {
    let t = validate(&raw(1999, 7, 9, 0, 0, 30)).unwrap();
    assert_eq!(format_timestamp(&t).as_str(), "9  7  1999   0:0");
}
