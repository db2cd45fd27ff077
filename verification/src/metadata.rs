//! The metadata tag scanner: locates the capture-time field inside a raw
//! EXIF blob, and the extraction pipeline from blob to validated timestamp.
//!
//! The tag-container parsing itself is the exif crate's work, reached through
//! trusted wrappers; everything from the scanned field onward is verified.
//! A malformed container and a well-formed container lacking the tag fail
//! with different error kinds, because callers treat them differently.

use vstd::prelude::*;

use crate::calendar::{components_valid, timestamp_from, validate, CalendarTimestamp};
use crate::errors::StampError;
use crate::field::{field_timestamp_text, parse_field, parsed_components, TagFieldValue};

verus! {

/// A parsed EXIF tag directory (outside type, opaque to the library).
#[verifier::external_type_specification]
#[verifier::external_body]
pub struct ExExif(exif::Exif);

/// The exif crate's parse error (outside type, opaque to the library).
#[verifier::external_type_specification]
#[verifier::external_body]
pub struct ExExifError(exif::Error);

/// Whether a raw metadata blob parses as a well-formed tag directory. The
/// parse reads the bytes alone, so this is a function of the blob.
pub uninterp spec fn exif_container_wellformed(blob: Seq<u8>) -> bool;

/// The capture-time field of the primary image encoded in a well-formed
/// blob, if any; a function of the blob alone.
pub uninterp spec fn exif_datetime_of(blob: Seq<u8>) -> Option<TagFieldValue>;

/// The capture-time field of the primary image held by a parsed container.
pub uninterp spec fn container_datetime_field(container: exif::Exif) -> Option<TagFieldValue>;

/// Relies on exif::Reader::read_raw: parses raw EXIF bytes into a tag
/// directory; the parse is deterministic in the bytes, and the container it
/// returns holds the fields they encode.
#[verifier::external_body]
fn read_container(blob: Vec<u8>) -> (r: Result<exif::Exif, exif::Error>)
    ensures
        r is Ok <==> exif_container_wellformed(blob@),
        r matches Ok(c) ==> container_datetime_field(c) == exif_datetime_of(blob@),
{
    exif::Reader::new().read_raw(blob)
}

/// Relies on exif::Exif::get_field: looks the capture-time tag up in the
/// primary directory of the parsed container, reading only the container.
/// The arms translate the crate's value kinds into the library's.
#[verifier::external_body]
fn lookup_datetime_original(container: &exif::Exif) -> (r: Option<TagFieldValue>)
    ensures
        r == container_datetime_field(*container),
{
    match container.get_field(exif::Tag::DateTimeOriginal, exif::In::PRIMARY) {
        None => None,
        Some(field) => match &field.value {
            exif::Value::Ascii(v) => Some(TagFieldValue::Ascii(v.clone())),
            exif::Value::Short(v) => Some(TagFieldValue::Short(v.clone())),
            _ => Some(TagFieldValue::Other),
        },
    }
}

/// The scan outcome for a blob: the capture-time field of the primary image,
/// `MalformedContainer` if the blob is no tag directory at all,
/// `MissingTimestampTag` if it is one but lacks the tag.
pub open spec fn spec_scan(blob: Seq<u8>) -> Result<TagFieldValue, StampError> {
    if !exif_container_wellformed(blob) {
        Err(StampError::MalformedContainer)
    } else {
        match exif_datetime_of(blob) {
            Some(value) => Ok(value),
            None => Err(StampError::MissingTimestampTag),
        }
    }
}

/// Scans a raw metadata blob for the capture-time tag of the primary image,
/// returning its value in its native encoded kind, unconverted.
///
/// A blob that does not parse as a tag directory fails with
/// `MalformedContainer`; a directory without the tag fails with
/// `MissingTimestampTag`. The two remain distinguishable.
pub fn scan_datetime_original(blob: Vec<u8>) -> (r: Result<TagFieldValue, StampError>)
    ensures
        r == spec_scan(blob@),
{
    match read_container(blob) {
        Err(_) => Err(StampError::MalformedContainer),
        Ok(container) => match lookup_datetime_original(&container) {
            Some(value) => Ok(value),
            None => Err(StampError::MissingTimestampTag),
        },
    }
}

/// The extraction outcome for a blob: scan, parse the field, validate the
/// calendar components; the first failing stage names the error.
pub open spec fn spec_extract(blob: Seq<u8>) -> Result<CalendarTimestamp, StampError> {
    match spec_scan(blob) {
        Err(e) => Err(e),
        Ok(value) => match field_timestamp_text(value) {
            None => Err(StampError::FieldFormat),
            Some(text) => if components_valid(parsed_components(text)) {
                Ok(timestamp_from(parsed_components(text)))
            } else {
                Err(StampError::InvalidCalendarDate)
            },
        },
    }
}

/// Extracts the capture timestamp from a raw EXIF metadata blob: scans for
/// the capture-time tag, parses its fixed-layout ASCII value, and validates
/// the six components against the calendar.
///
/// Each stage fails fast with its own error kind: `MalformedContainer`,
/// `MissingTimestampTag`, `FieldFormat` and `InvalidCalendarDate` stay
/// distinguishable.
pub fn extract_timestamp_from_exif(raw_exif: Vec<u8>) -> (r: Result<CalendarTimestamp, StampError>)
    ensures
        r == spec_extract(raw_exif@),
{
    let value = match scan_datetime_original(raw_exif) {
        Ok(v) => v,
        Err(e) => {
            return Err(e);
        },
    };
    let components = match parse_field(&value) {
        Ok(c) => c,
        Err(e) => {
            return Err(e);
        },
    };
    validate(&components)
}

} // verus!
