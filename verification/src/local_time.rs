//! The local date and time, and the stamp that names a log file after it.

use vstd::prelude::*;
use crate::log_index::{padded_decimal, padded_decimal_bytes, lemma_padded_decimal_bytes, is_digit_byte};

verus! {

/// A wall-clock date and time of the machine's time zone, to the second.
#[derive(Clone, Copy, Debug, PartialEq, Eq, Structural)]
pub struct LocalDateTime {
    pub year: i32,
    pub month: u32,
    pub day: u32,
    pub hour: u32,
    pub minute: u32,
    pub second: u32,
}

/// The first year that a date of chrono can have.
pub const MIN_YEAR: i32 = -262143;

/// The last year that a date of chrono can have.
pub const MAX_YEAR: i32 = 262142;

/// A leap year of the proleptic Gregorian calendar.
pub open spec fn is_leap_year(year: int) -> bool {
    (year % 4 == 0 && year % 100 != 0) || year % 400 == 0
}

/// The number of days of a month of the proleptic Gregorian calendar.
pub open spec fn days_in_month(year: int, month: int) -> int {
    if month == 2 {
        if is_leap_year(year) {
            29
        } else {
            28
        }
    } else if month == 4 || month == 6 || month == 9 || month == 11 {
        30
    } else {
        31
    }
}

/// A date and time that exists: a year in chrono's range, a month and a day
/// of the calendar, and a time of day without leap second.
pub open spec fn valid_date_time(t: LocalDateTime) -> bool {
    &&& MIN_YEAR <= t.year <= MAX_YEAR
    &&& 1 <= t.month <= 12
    &&& 1 <= t.day <= days_in_month(t.year as int, t.month as int)
    &&& t.hour < 24
    &&& t.minute < 60
    &&& t.second < 60
}

/// The format of the stamp in a log file name: year, month and day, then
/// hour, minute and second (`20240131_23-59-07`).
pub const LOG_STAMP_FORMAT: &'static str = "%Y%m%d_%H-%M-%S";

/// The year as `%Y` writes it: four digits at least, zero-padded, with a sign
/// outside 0 to 9999.
pub open spec fn year_text(year: int) -> Seq<char> {
    if 0 <= year <= 9999 {
        padded_decimal(year as nat, 4)
    } else if year > 9999 {
        seq!['+'] + padded_decimal(year as nat, 4)
    } else {
        seq!['-'] + padded_decimal((-year) as nat, 4)
    }
}

/// A field below 100 as `%m`, `%d`, `%H`, `%M` and `%S` write it: two digits.
pub open spec fn two_digits(v: nat) -> Seq<char> {
    padded_decimal(v, 2)
}

/// The stamp of `t` in `LOG_STAMP_FORMAT`.
pub open spec fn log_stamp_spec(t: LocalDateTime) -> Seq<char> {
    year_text(t.year as int) + two_digits(t.month as nat) + two_digits(t.day as nat) + seq!['_']
        + two_digits(t.hour as nat) + seq!['-'] + two_digits(t.minute as nat) + seq!['-']
        + two_digits(t.second as nat)
}

/// A character that can appear in a time stamp of a log file name: a decimal
/// digit, `_`, `-` or `+`.
pub open spec fn is_stamp_char(c: char) -> bool {
    ('0' <= c <= '9') || c == '_' || c == '-' || c == '+'
}

/// A time stamp made of stamp characters.
pub open spec fn is_log_stamp(stamp: Seq<char>) -> bool {
    &&& stamp.len() > 0
    &&& forall|i: int| 0 <= i < stamp.len() ==> is_stamp_char(#[trigger] stamp[i])
}

/// `chrono::Local::now()`, taken as the wall-clock date and time of the
/// machine's time zone (`naive_local`), field by field. Which date and time
/// it gives rests on the clock and the time zone settings; the contract
/// states what chrono shows of every reading: the fields of an existing
/// `NaiveDateTime`. It has no leap second, since the reading comes from the
/// system clock's whole seconds and nanoseconds below one second.
#[verifier::external_body]
pub(crate) fn local_now() -> (now: LocalDateTime)
    ensures
        valid_date_time(now),
{
    let now = chrono::Local::now().naive_local();
    LocalDateTime {
        year: chrono::Datelike::year(&now),
        month: chrono::Datelike::month(&now),
        day: chrono::Datelike::day(&now),
        hour: chrono::Timelike::hour(&now),
        minute: chrono::Timelike::minute(&now),
        second: chrono::Timelike::second(&now),
    }
}

/// `NaiveDateTime::format` with `LOG_STAMP_FORMAT`, on the date and time `t`
/// (made a `NaiveDateTime` by `NaiveDate::from_ymd_opt` and `and_hms_opt`,
/// which accept every valid date and time), written out as a `String`. The
/// contract states what chrono's formatting gives for that format, item by
/// item: `%Y` as `year_text`, the other numeric items as two digits, and
/// the literal `_` and `-` between them.
#[verifier::external_body]
pub(crate) fn format_date_time(t: &LocalDateTime, format: &str) -> (text: String)
    requires
        valid_date_time(*t),
        format@ == LOG_STAMP_FORMAT@,
    ensures
        text@ == log_stamp_spec(*t),
{
    let date = chrono::NaiveDate::from_ymd_opt(t.year, t.month, t.day).unwrap();
    let date_time = date.and_hms_opt(t.hour, t.minute, t.second).unwrap();
    date_time.format(format).to_string()
}

/// The stamp of a date and time, in `LOG_STAMP_FORMAT`.
pub fn log_stamp(t: &LocalDateTime) -> (stamp: String)
    requires
        valid_date_time(*t),
    ensures
        stamp@ == log_stamp_spec(*t),
{
    format_date_time(t, LOG_STAMP_FORMAT)
}

/// Zero-padded digits written as characters are decimal digits.
proof fn lemma_padded_chars_are_digits(v: nat, width: nat)
    ensures
        padded_decimal(v, width).len() >= width,
        forall|i: int|
            0 <= i < padded_decimal(v, width).len() ==> '0' <= #[trigger] padded_decimal(
                v,
                width,
            )[i] <= '9',
{
    lemma_padded_decimal_bytes(v, width);
    let b = padded_decimal_bytes(v, width);
    assert forall|i: int| 0 <= i < padded_decimal(v, width).len() implies '0' <= #[trigger] padded_decimal(
        v,
        width,
    )[i] <= '9' by {
        assert(is_digit_byte(b[i]));
    }
}

/// Every stamp of an existing date and time is made of stamp characters and
/// is 17 characters long at least.
pub proof fn lemma_log_stamp_shape(t: LocalDateTime)
    requires
        valid_date_time(t),
    ensures
        is_log_stamp(log_stamp_spec(t)),
        log_stamp_spec(t).len() >= 17,
{
    let y = t.year as int;
    if 0 <= y <= 9999 {
        lemma_padded_chars_are_digits(y as nat, 4);
    } else if y > 9999 {
        lemma_padded_chars_are_digits(y as nat, 4);
    } else {
        lemma_padded_chars_are_digits((-y) as nat, 4);
    }
    lemma_padded_chars_are_digits(t.month as nat, 2);
    lemma_padded_chars_are_digits(t.day as nat, 2);
    lemma_padded_chars_are_digits(t.hour as nat, 2);
    lemma_padded_chars_are_digits(t.minute as nat, 2);
    lemma_padded_chars_are_digits(t.second as nat, 2);
    let yt = year_text(y);
    assert(yt.len() >= 4);
    assert forall|i: int| 0 <= i < yt.len() implies is_stamp_char(#[trigger] yt[i]) by {
        if 0 <= y <= 9999 {
        } else if y > 9999 {
            if i > 0 {
                assert(yt[i] == padded_decimal(y as nat, 4)[i - 1]);
            }
        } else {
            if i > 0 {
                assert(yt[i] == padded_decimal((-y) as nat, 4)[i - 1]);
            }
        }
    }
    let s = log_stamp_spec(t);
    let mo = two_digits(t.month as nat);
    let d = two_digits(t.day as nat);
    let h = two_digits(t.hour as nat);
    let mi = two_digits(t.minute as nat);
    let se = two_digits(t.second as nat);
    let p1 = yt.len() as int;
    let p2 = p1 + mo.len();
    let p3 = p2 + d.len();
    let p4 = p3 + 1;
    let p5 = p4 + h.len();
    let p6 = p5 + 1;
    let p7 = p6 + mi.len();
    let p8 = p7 + 1;
    assert forall|i: int| 0 <= i < s.len() implies is_stamp_char(#[trigger] s[i]) by {
        if i < p1 {
            assert(s[i] == yt[i]);
        } else if i < p2 {
            assert(s[i] == mo[i - p1]);
        } else if i < p3 {
            assert(s[i] == d[i - p2]);
        } else if i < p4 {
        } else if i < p5 {
            assert(s[i] == h[i - p4]);
        } else if i < p6 {
        } else if i < p7 {
            assert(s[i] == mi[i - p6]);
        } else if i < p8 {
        } else {
            assert(s[i] == se[i - p8]);
        }
    }
}

} // verus!
