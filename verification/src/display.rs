//! The timestamp formatter: renders a validated timestamp into the fixed
//! overlay text `<day>  <month>  <year>   <hour>:<minute>`.
//!
//! Numerals are plain decimal with no leading zeros; two spaces separate day,
//! month and year, three spaces precede the time, a colon separates hour and
//! minute, and seconds are omitted. The layout is a fixed presentation rule.

use vstd::prelude::*;
use vstd::string::StringExecFns;

use crate::calendar::{components_valid, timestamp_from, CalendarTimestamp};
use crate::field::RawTimestampComponents;

verus! {

/// The character for one decimal digit value.
pub open spec fn digit_char(d: int) -> char {
    if d == 0 {
        '0'
    } else if d == 1 {
        '1'
    } else if d == 2 {
        '2'
    } else if d == 3 {
        '3'
    } else if d == 4 {
        '4'
    } else if d == 5 {
        '5'
    } else if d == 6 {
        '6'
    } else if d == 7 {
        '7'
    } else if d == 8 {
        '8'
    } else {
        '9'
    }
}

/// The decimal numeral of `n`, most significant digit first, no leading zeros.
pub open spec fn dec_digits(n: nat) -> Seq<char>
    decreases n,
{
    if n < 10 {
        seq![digit_char(n as int)]
    } else {
        dec_digits(n / 10) + seq![digit_char((n % 10) as int)]
    }
}

/// The full overlay text for a timestamp: day, two spaces, month, two spaces,
/// year, three spaces, hour, a colon, minute.
pub open spec fn display_text(t: CalendarTimestamp) -> Seq<char> {
    dec_digits(t.day as nat) + seq![' ', ' '] + dec_digits(t.month as nat) + seq![' ', ' ']
        + dec_digits(t.year as nat) + seq![' ', ' ', ' '] + dec_digits(t.hour as nat) + seq![':']
        + dec_digits(t.minute as nat)
}

/// Shape facts about decimal numerals: never empty, never longer than the
/// magnitude requires, no leading zero, and every character a decimal digit.
pub proof fn lemma_dec_digits_shape(n: nat)
    ensures
        dec_digits(n).len() >= 1,
        n >= 1 ==> dec_digits(n)[0] != '0',
        n < 10 ==> dec_digits(n).len() == 1,
        n < 100 ==> dec_digits(n).len() <= 2,
        n < 1000 ==> dec_digits(n).len() <= 3,
        n < 10000 ==> dec_digits(n).len() <= 4,
        n < 100000 ==> dec_digits(n).len() <= 5,
        forall|i: int|
            0 <= i < dec_digits(n).len() ==> exists|d: int|
                0 <= d <= 9 && #[trigger] dec_digits(n)[i] == digit_char(d),
    decreases n,
{
    if n >= 10 {
        lemma_dec_digits_shape(n / 10);
        assert forall|i: int| 0 <= i < dec_digits(n).len() implies exists|d: int|
            0 <= d <= 9 && #[trigger] dec_digits(n)[i] == digit_char(d) by {
            if i < dec_digits(n / 10).len() {
                assert(dec_digits(n)[i] == dec_digits(n / 10)[i]);
            } else {
                let d = (n % 10) as int;
                assert(0 <= d <= 9 && dec_digits(n)[i] == digit_char(d));
            }
        }
    } else {
        let d = n as int;
        assert(0 <= d <= 9 && dec_digits(n)[0] == digit_char(d));
    }
}

/// Every character of a decimal numeral is ASCII.
proof fn lemma_dec_digits_ascii(n: nat)
    ensures
        vstd::utf8::is_ascii_chars(dec_digits(n)),
{
    lemma_dec_digits_shape(n);
    assert forall|i: int| 0 <= i < dec_digits(n).len() implies '\0' <= #[trigger] dec_digits(n)[i]
        <= '\u{7f}' by {
        let d = choose|d: int| 0 <= d <= 9 && dec_digits(n)[i] == digit_char(d);
        assert('\0' <= digit_char(d) <= '\u{7f}');
    }
}

/// The display text is ASCII throughout, so its UTF-8 encoding is its
/// characters byte for byte.
pub proof fn lemma_display_text_ascii(t: CalendarTimestamp)
    ensures
        vstd::utf8::is_ascii_chars(display_text(t)),
        vstd::utf8::encode_utf8(display_text(t)) =~= Seq::new(
            display_text(t).len(),
            |i: int| display_text(t)[i] as u8,
        ),
{
    lemma_dec_digits_ascii(t.day as nat);
    lemma_dec_digits_ascii(t.month as nat);
    lemma_dec_digits_ascii(t.year as nat);
    lemma_dec_digits_ascii(t.hour as nat);
    lemma_dec_digits_ascii(t.minute as nat);
    assert(vstd::utf8::is_ascii_chars(display_text(t)));
    vstd::utf8::is_ascii_chars_encode_utf8(display_text(t));
}

/// For every six-tuple the calendar accepts whose year lies in 1..=9999,
/// validation succeeds (by `validate`'s contract, with `timestamp_from(c)` as
/// its result) and formatting that result yields exactly: the day's numeral,
/// two spaces, the month's, two spaces, the year's, three spaces, the hour's,
/// a colon, and the minute's — plain decimal numerals with no leading zeros
/// and no more digits than each component's magnitude requires (an hour or
/// minute of zero is the single digit 0).
pub proof fn lemma_validate_then_format(c: RawTimestampComponents)
    requires
        components_valid(c),
        1 <= c.year <= 9999,
    ensures
        display_text(timestamp_from(c)) == dec_digits(c.day as nat) + seq![' ', ' '] + dec_digits(
            c.month as nat,
        ) + seq![' ', ' '] + dec_digits(c.year as nat) + seq![' ', ' ', ' '] + dec_digits(
            c.hour as nat,
        ) + seq![':'] + dec_digits(c.minute as nat),
        dec_digits(c.day as nat)[0] != '0' && dec_digits(c.day as nat).len() <= 2,
        dec_digits(c.month as nat)[0] != '0' && dec_digits(c.month as nat).len() <= 2,
        dec_digits(c.year as nat)[0] != '0' && dec_digits(c.year as nat).len() <= 4,
        c.hour >= 1 ==> dec_digits(c.hour as nat)[0] != '0',
        dec_digits(c.hour as nat).len() <= 2,
        c.minute >= 1 ==> dec_digits(c.minute as nat)[0] != '0',
        dec_digits(c.minute as nat).len() <= 2,
{
    lemma_dec_digits_shape(c.day as nat);
    lemma_dec_digits_shape(c.month as nat);
    lemma_dec_digits_shape(c.year as nat);
    lemma_dec_digits_shape(c.hour as nat);
    lemma_dec_digits_shape(c.minute as nat);
}

/// The string slice holding one decimal digit.
fn digit_str(d: u8) -> (r: &'static str)
    requires
        d <= 9,
    ensures
        r@ == seq![digit_char(d as int)],
{
    proof {
        reveal_strlit("0");
        reveal_strlit("1");
        reveal_strlit("2");
        reveal_strlit("3");
        reveal_strlit("4");
        reveal_strlit("5");
        reveal_strlit("6");
        reveal_strlit("7");
        reveal_strlit("8");
        reveal_strlit("9");
    }
    let r: &'static str = match d {
        0 => "0",
        1 => "1",
        2 => "2",
        3 => "3",
        4 => "4",
        5 => "5",
        6 => "6",
        7 => "7",
        8 => "8",
        _ => "9",
    };
    proof {
        assert(r@ =~= seq![digit_char(d as int)]);
    }
    r
}

/// Appends the decimal numeral of `n` to `s`.
fn push_decimal(s: &mut String, n: u16)
    ensures
        final (s)@ == old(s)@ + dec_digits(n as nat),
    decreases n,
{
    if n >= 10 {
        push_decimal(s, n / 10);
    }
    let d = (n % 10) as u8;
    s.append(digit_str(d));
    proof {
        assert(s@ =~= old(s)@ + dec_digits(n as nat));
    }
}

/// Renders a validated timestamp into the fixed overlay text.
///
/// Total over all timestamps; the result is exactly `display_text`.
pub fn format_timestamp(t: &CalendarTimestamp) -> (s: String)
    ensures
        s@ == display_text(*t),
{
    proof {
        reveal_strlit("  ");
        reveal_strlit("   ");
        reveal_strlit(":");
    }
    let mut s = String::new();
    push_decimal(&mut s, t.day as u16);
    s.append("  ");
    push_decimal(&mut s, t.month as u16);
    s.append("  ");
    push_decimal(&mut s, t.year);
    s.append("   ");
    push_decimal(&mut s, t.hour as u16);
    s.append(":");
    push_decimal(&mut s, t.minute as u16);
    proof {
        assert(("  ")@ =~= seq![' ', ' ']);
        assert(("   ")@ =~= seq![' ', ' ', ' ']);
        assert((":")@ =~= seq![':']);
        assert(s@ =~= display_text(*t));
    }
    s
}

} // verus!
