use filmstamp::errors::StampError;
use filmstamp::field::{parse_field, RawTimestampComponents, TagFieldValue};
use filmstamp::metadata::{extract_timestamp_from_exif, scan_datetime_original};
use filmstamp::pipeline::extract_display_timestamp;

/// A little-endian TIFF blob whose primary image carries a DateTimeOriginal
/// ASCII entry (in the Exif sub-directory) holding `value` plus a NUL.
fn exif_blob_with_datetime(value: &str) -> Vec<u8> {
    let text = value.as_bytes();
    let mut v: Vec<u8> = Vec::new();
    v.extend_from_slice(&[0x49, 0x49, 0x2A, 0x00, 8, 0, 0, 0]);
    // IFD0 at offset 8: one entry, the Exif IFD pointer (tag 0x8769).
    v.extend_from_slice(&[1, 0]);
    v.extend_from_slice(&[0x69, 0x87, 4, 0, 1, 0, 0, 0, 26, 0, 0, 0]);
    v.extend_from_slice(&[0, 0, 0, 0]);
    // Exif IFD at offset 26: one entry, DateTimeOriginal (tag 0x9003, ASCII).
    v.extend_from_slice(&[1, 0]);
    v.extend_from_slice(&[0x03, 0x90, 2, 0]);
    let count = (text.len() + 1) as u32;
    v.extend_from_slice(&count.to_le_bytes());
    v.extend_from_slice(&44u32.to_le_bytes());
    v.extend_from_slice(&[0, 0, 0, 0]);
    // Value bytes at offset 44.
    v.extend_from_slice(text);
    v.push(0);
    v
}

/// A well-formed little-endian TIFF blob with an empty primary directory.
fn exif_blob_without_datetime() -> Vec<u8> {
    let mut v: Vec<u8> = Vec::new();
    v.extend_from_slice(&[0x49, 0x49, 0x2A, 0x00, 8, 0, 0, 0]);
    v.extend_from_slice(&[0, 0]);
    v.extend_from_slice(&[0, 0, 0, 0]);
    v
}

#[test]
fn test_extract_timestamp_from_exif_empty_data() {
    let empty_data: Vec<u8> = vec![];

    let result = extract_timestamp_from_exif(empty_data);
    assert!(result.is_err());
}

#[test]
fn test_extract_timestamp_from_exif_invalid_data() {
    let invalid_data: Vec<u8> = b"not a valid image".to_vec();

    let result = extract_timestamp_from_exif(invalid_data);
    assert!(result.is_err());
}

#[test]
fn test_extract_timestamp_from_exif_field_valid() {
    let value = TagFieldValue::Ascii(vec![b"2025:01:02 03:04:05".to_vec()]);

    let result = parse_field(&value);

    assert!(result.is_ok());

    let components = result.unwrap();

    assert_eq!(components.year, 2025);
    assert_eq!(components.month, 1);
    assert_eq!(components.day, 2);
    assert_eq!(components.hour, 3);
    assert_eq!(components.minute, 4);
    assert_eq!(components.second, 5);
}

#[test]
fn test_extract_timestamp_from_exif_field_invalid_value() {
    let value = TagFieldValue::Short(vec![1]);

    let result = parse_field(&value);

    assert!(result.is_err());
    assert_eq!(result.unwrap_err(), StampError::FieldFormat);
}

#[test]
fn test_extract_timestamp_from_exif_field_empty_date() {
    let value = TagFieldValue::Ascii(vec![]);

    let result = parse_field(&value);

    assert!(result.is_err());
    assert_eq!(result.unwrap_err(), StampError::FieldFormat);
}

#[test]
fn test_extract_timestamp_from_exif_field_invalid_date() {
    let value = TagFieldValue::Ascii(vec![b"this is not a date".to_vec()]);

    let result = parse_field(&value);

    assert!(result.is_err());
    assert_eq!(result.unwrap_err(), StampError::FieldFormat);
}

#[test]
fn test_parse_field_rejects_wrong_length() {
    let value = TagFieldValue::Ascii(vec![b"2025:01:02 03:04:5".to_vec()]);
    assert_eq!(parse_field(&value).unwrap_err(), StampError::FieldFormat);

    let value = TagFieldValue::Ascii(vec![b"2025:01:02 03:04:055".to_vec()]);
    assert_eq!(parse_field(&value).unwrap_err(), StampError::FieldFormat);
}

#[test]
fn test_parse_field_rejects_letter_in_digit_slot() {
    let value = TagFieldValue::Ascii(vec![b"2025:01:02 03:04:0X".to_vec()]);
    assert_eq!(parse_field(&value).unwrap_err(), StampError::FieldFormat);
}

#[test]
fn test_parse_field_rejects_wrong_separators() {
    let value = TagFieldValue::Ascii(vec![b"2025-01-02 03:04:05".to_vec()]);
    assert_eq!(parse_field(&value).unwrap_err(), StampError::FieldFormat);

    let value = TagFieldValue::Ascii(vec![b"2025:01:02-03:04:05".to_vec()]);
    assert_eq!(parse_field(&value).unwrap_err(), StampError::FieldFormat);
}

#[test]
fn test_parse_field_rejects_other_kind() {
    assert_eq!(parse_field(&TagFieldValue::Other).unwrap_err(), StampError::FieldFormat);
}

#[test]
fn test_parse_field_accepts_unvalidated_ranges() {
    // Range checking is deferred to the calendar validator.
    let value = TagFieldValue::Ascii(vec![b"9999:13:32 24:60:60".to_vec()]);
    let components = parse_field(&value).unwrap();
    assert_eq!(
        components,
        RawTimestampComponents { year: 9999, month: 13, day: 32, hour: 24, minute: 60, second: 60 }
    );
}

#[test]
fn test_scan_distinguishes_malformed_from_absent() {
    let malformed = scan_datetime_original(b"junk bytes".to_vec());
    assert_eq!(malformed.unwrap_err(), StampError::MalformedContainer);

    let absent = scan_datetime_original(exif_blob_without_datetime());
    assert_eq!(absent.unwrap_err(), StampError::MissingTimestampTag);
}

#[test]
fn test_scan_finds_ascii_value() {
    let blob = exif_blob_with_datetime("2025:01:02 03:04:05");
    let value = scan_datetime_original(blob).unwrap();
    assert_eq!(value, TagFieldValue::Ascii(vec![b"2025:01:02 03:04:05".to_vec()]));
}

#[test]
fn test_extract_distinguishes_error_kinds() {
    assert_eq!(
        extract_timestamp_from_exif(b"junk bytes".to_vec()).unwrap_err(),
        StampError::MalformedContainer
    );
    assert_eq!(
        extract_timestamp_from_exif(exif_blob_without_datetime()).unwrap_err(),
        StampError::MissingTimestampTag
    );
    assert_eq!(
        extract_timestamp_from_exif(exif_blob_with_datetime("not:a:date xx:xx:xx")).unwrap_err(),
        StampError::FieldFormat
    );
    assert_eq!(
        extract_timestamp_from_exif(exif_blob_with_datetime("2025:13:02 03:04:05")).unwrap_err(),
        StampError::InvalidCalendarDate
    );
}

#[test]
fn test_extract_end_to_end_valid() {
    let blob = exif_blob_with_datetime("2025:01:02 03:04:05");
    let t = extract_timestamp_from_exif(blob).unwrap();
    assert_eq!(t.year, 2025);
    assert_eq!(t.month, 1);
    assert_eq!(t.day, 2);
    assert_eq!(t.hour, 3);
    assert_eq!(t.minute, 4);
    assert_eq!(t.second, 5);
}

#[test]
fn test_display_timestamp_end_to_end() {
    let blob = exif_blob_with_datetime("2025:01:02 03:04:05");
    let text = extract_display_timestamp(blob).unwrap();
    assert_eq!(text.as_str(), "2  1  2025   3:4");
}

#[test]
fn test_display_timestamp_end_to_end_failure() {
    let blob = exif_blob_with_datetime("not:a:date xx:xx:xx");
    let result = extract_display_timestamp(blob);
    assert_eq!(result.unwrap_err(), StampError::FieldFormat);
}
