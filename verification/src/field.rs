//! The timestamp field parser: turns a scanned tag value into six unvalidated
//! integer components.
//!
//! Only the ASCII variant of a tag value can carry a timestamp, and the text
//! must match the fixed layout `"YYYY:MM:DD HH:MM:SS"` exactly: nineteen
//! bytes, decimal digits in every numeric slot, colons and one space as the
//! only separators. Range checking of the parsed numbers is deferred to the
//! calendar validator.

use vstd::prelude::*;

use crate::errors::StampError;

verus! {

/// The value of a metadata tag in its native encoded kind.
#[derive(Debug, PartialEq, Eq)]
pub enum TagFieldValue {
    /// ASCII text: a sequence of byte strings.
    Ascii(Vec<Vec<u8>>),
    /// Unsigned 16-bit integers.
    Short(Vec<u16>),
    /// Any other encoded kind; never a valid timestamp carrier.
    Other,
}

/// Six unvalidated integers parsed from the fixed-layout timestamp text.
#[derive(Debug, Clone, Copy, PartialEq, Eq, Structural)]
pub struct RawTimestampComponents {
    pub year: u16,
    pub month: u8,
    pub day: u8,
    pub hour: u8,
    pub minute: u8,
    pub second: u8,
}

/// An ASCII decimal digit.
pub open spec fn is_digit_byte(b: u8) -> bool {
    48 <= b && b <= 57
}

/// The exact byte layout `"YYYY:MM:DD HH:MM:SS"`: nineteen bytes, digits in
/// the numeric slots, colons at offsets 4, 7, 13 and 16, a space at offset 10.
pub open spec fn timestamp_layout(s: Seq<u8>) -> bool {
    &&& s.len() == 19
    &&& is_digit_byte(s[0]) && is_digit_byte(s[1]) && is_digit_byte(s[2]) && is_digit_byte(s[3])
    &&& s[4] == 58u8
    &&& is_digit_byte(s[5]) && is_digit_byte(s[6])
    &&& s[7] == 58u8
    &&& is_digit_byte(s[8]) && is_digit_byte(s[9])
    &&& s[10] == 32u8
    &&& is_digit_byte(s[11]) && is_digit_byte(s[12])
    &&& s[13] == 58u8
    &&& is_digit_byte(s[14]) && is_digit_byte(s[15])
    &&& s[16] == 58u8
    &&& is_digit_byte(s[17]) && is_digit_byte(s[18])
}

/// Numeric value of one ASCII digit.
pub open spec fn digit_value(b: u8) -> int {
    b - 48
}

/// Value of the two-digit group starting at offset `i`.
pub open spec fn two_digit_value(s: Seq<u8>, i: int) -> int {
    10 * digit_value(s[i]) + digit_value(s[i + 1])
}

/// Value of the four-digit group starting at offset `i`.
pub open spec fn four_digit_value(s: Seq<u8>, i: int) -> int {
    1000 * digit_value(s[i]) + 100 * digit_value(s[i + 1]) + 10 * digit_value(s[i + 2])
        + digit_value(s[i + 3])
}

/// The six components encoded by a text in timestamp layout.
pub open spec fn parsed_components(s: Seq<u8>) -> RawTimestampComponents {
    RawTimestampComponents {
        year: four_digit_value(s, 0) as u16,
        month: two_digit_value(s, 5) as u8,
        day: two_digit_value(s, 8) as u8,
        hour: two_digit_value(s, 11) as u8,
        minute: two_digit_value(s, 14) as u8,
        second: two_digit_value(s, 17) as u8,
    }
}

/// The timestamp text carried by a tag value, if any: the value must be the
/// ASCII kind, non-empty, and its first string must match the fixed layout.
pub open spec fn field_timestamp_text(value: TagFieldValue) -> Option<Seq<u8>> {
    match value {
        TagFieldValue::Ascii(strings) => if strings@.len() > 0 && timestamp_layout(
            strings@[0]@,
        ) {
            Some(strings@[0]@)
        } else {
            None
        },
        _ => None,
    }
}

/// True iff the byte string matches the fixed timestamp layout.
fn check_layout(s: &Vec<u8>) -> (ok: bool)
    ensures
        ok == timestamp_layout(s@),
{
    if s.len() != 19 {
        return false;
    }
    is_digit(s[0]) && is_digit(s[1]) && is_digit(s[2]) && is_digit(s[3]) && s[4] == 58 && is_digit(
        s[5],
    ) && is_digit(s[6]) && s[7] == 58 && is_digit(s[8]) && is_digit(s[9]) && s[10] == 32
        && is_digit(s[11]) && is_digit(s[12]) && s[13] == 58 && is_digit(s[14]) && is_digit(s[15])
        && s[16] == 58 && is_digit(s[17]) && is_digit(s[18])
}

fn is_digit(b: u8) -> (ok: bool)
    ensures
        ok == is_digit_byte(b),
{
    48 <= b && b <= 57
}

/// Value of the two-digit decimal group starting at offset `i`.
fn parse_two(s: &Vec<u8>, i: usize) -> (v: u8)
    requires
        s@.len() == 19,
        i + 2 <= 19,
        is_digit_byte(s@[i as int]),
        is_digit_byte(s@[i + 1]),
    ensures
        v == two_digit_value(s@, i as int),
{
    let d0 = s[i];
    let d1 = s[i + 1];
    assert(is_digit_byte(d0) && is_digit_byte(d1));
    10 * (d0 - 48) + (d1 - 48)
}

/// Value of the four-digit decimal group starting at offset `i`.
fn parse_four(s: &Vec<u8>, i: usize) -> (v: u16)
    requires
        s@.len() == 19,
        i + 4 <= 19,
        is_digit_byte(s@[i as int]),
        is_digit_byte(s@[i + 1]),
        is_digit_byte(s@[i + 2]),
        is_digit_byte(s@[i + 3]),
    ensures
        v == four_digit_value(s@, i as int),
{
    let d0 = s[i];
    let d1 = s[i + 1];
    let d2 = s[i + 2];
    let d3 = s[i + 3];
    assert(is_digit_byte(d0) && is_digit_byte(d1) && is_digit_byte(d2) && is_digit_byte(d3));
    1000 * ((d0 - 48) as u16) + 100 * ((d1 - 48) as u16) + 10 * ((d2 - 48) as u16) + ((d3
        - 48) as u16)
}

/// Parses a scanned tag value into six unvalidated integer components.
///
/// Succeeds exactly when the value is non-empty ASCII text matching
/// `"YYYY:MM:DD HH:MM:SS"`; every other kind or shape is a format error. An
/// empty ASCII value is a format error too, not an absent tag.
pub fn parse_field(value: &TagFieldValue) -> (r: Result<RawTimestampComponents, StampError>)
    ensures
        r is Ok <==> field_timestamp_text(*value) is Some,
        r matches Ok(c) ==> c == parsed_components(field_timestamp_text(*value)->Some_0),
        r matches Err(e) ==> e == StampError::FieldFormat,
{
    match value {
        TagFieldValue::Ascii(strings) => {
            if strings.len() == 0 {
                return Err(StampError::FieldFormat);
            }
            let s = &strings[0];
            if !check_layout(s) {
                return Err(StampError::FieldFormat);
            }
            Ok(
                RawTimestampComponents {
                    year: parse_four(s, 0),
                    month: parse_two(s, 5),
                    day: parse_two(s, 8),
                    hour: parse_two(s, 11),
                    minute: parse_two(s, 14),
                    second: parse_two(s, 17),
                },
            )
        },
        _ => Err(StampError::FieldFormat),
    }
}

} // verus!
