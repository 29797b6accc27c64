//! The clock source: reads the wall clock once per tick and formats it
//! deterministically as zero-padded, 24-hour `HH:MM:SS`.

use chrono::Timelike;
use vstd::prelude::*;

verus! {

/// The character for one decimal digit.
pub open spec fn digit_char(d: int) -> char {
    if d == 0 {
        '0'
    } else if d == 1 {
        '1'
    } else if d == 2 {
        '2'
    } else if d == 3 {
        '3'
    } else if d == 4 {
        '4'
    } else if d == 5 {
        '5'
    } else if d == 6 {
        '6'
    } else if d == 7 {
        '7'
    } else if d == 8 {
        '8'
    } else {
        '9'
    }
}

/// The eight characters `HH:MM:SS` of a time of day, each component
/// zero-padded to two decimal digits.
pub open spec fn time_text(h: int, m: int, s: int) -> Seq<char> {
    seq![
        digit_char(h / 10),
        digit_char(h % 10),
        ':',
        digit_char(m / 10),
        digit_char(m % 10),
        ':',
        digit_char(s / 10),
        digit_char(s % 10),
    ]
}

pub open spec fn is_decimal_digit(c: char) -> bool {
    '0' <= c && c <= '9'
}

/// The shape of a formatted time: exactly eight characters, decimal
/// digits everywhere but at positions 2 and 5, which hold ':'.
pub open spec fn is_clock_text(t: Seq<char>) -> bool {
    &&& t.len() == 8
    &&& is_decimal_digit(t[0])
    &&& is_decimal_digit(t[1])
    &&& t[2] == ':'
    &&& is_decimal_digit(t[3])
    &&& is_decimal_digit(t[4])
    &&& t[5] == ':'
    &&& is_decimal_digit(t[6])
    &&& is_decimal_digit(t[7])
}

/// Law: every valid time of day formats to exactly eight characters in
/// the pattern digit-digit-colon-digit-digit-colon-digit-digit.
pub proof fn lemma_time_text_shape(h: int, m: int, s: int)
    requires
        0 <= h < 24,
        0 <= m < 60,
        0 <= s < 60,
    ensures
        is_clock_text(time_text(h, m, s)),
{
}

/// The one-character string for one decimal digit.
fn digit_str(d: u8) -> (r: &'static str)
    requires
        d < 10,
    ensures
        r@ == seq![digit_char(d as int)],
{
    proof {
        reveal_strlit("0");
        reveal_strlit("1");
        reveal_strlit("2");
        reveal_strlit("3");
        reveal_strlit("4");
        reveal_strlit("5");
        reveal_strlit("6");
        reveal_strlit("7");
        reveal_strlit("8");
        reveal_strlit("9");
    }
    let r: &'static str = if d == 0 {
        "0"
    } else if d == 1 {
        "1"
    } else if d == 2 {
        "2"
    } else if d == 3 {
        "3"
    } else if d == 4 {
        "4"
    } else if d == 5 {
        "5"
    } else if d == 6 {
        "6"
    } else if d == 7 {
        "7"
    } else if d == 8 {
        "8"
    } else {
        "9"
    };
    proof {
        assert(r@ =~= seq![digit_char(d as int)]);
    }
    r
}

/// Format a time of day as zero-padded `HH:MM:SS`.
pub fn format_hms(h: u8, m: u8, s: u8) -> (r: String)
    requires
        h < 24,
        m < 60,
        s < 60,
    ensures
        r@ == time_text(h as int, m as int, s as int),
        is_clock_text(r@),
{
    proof {
        reveal_strlit(":");
    }
    let mut out = String::new();
    out.append(digit_str(h / 10));
    out.append(digit_str(h % 10));
    out.append(":");
    out.append(digit_str(m / 10));
    out.append(digit_str(m % 10));
    out.append(":");
    out.append(digit_str(s / 10));
    out.append(digit_str(s % 10));
    proof {
        assert(out@ =~= time_text(h as int, m as int, s as int));
        lemma_time_text_shape(h as int, m as int, s as int);
    }
    out
}

/// Relies on chrono's `Local::now` and the `Timelike` accessors, whose
/// documentation gives hour 0 to 23, minute 0 to 59 and second 0 to 59.
#[verifier::external_body]
fn now_hms() -> (r: (u8, u8, u8))
    ensures
        r.0 < 24,
        r.1 < 60,
        r.2 < 60,
{
    let now = chrono::Local::now();
    (now.hour() as u8, now.minute() as u8, now.second() as u8)
}

/// The current local time, formatted as zero-padded `HH:MM:SS`.
pub fn now_string() -> (r: String)
    ensures
        is_clock_text(r@),
{
    let (h, m, s) = now_hms();
    format_hms(h, m, s)
}

} // verus!
