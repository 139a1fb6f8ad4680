//! Instants in UTC, held as calendar fields.

use chrono::{Datelike, Timelike};
use std::fmt::Write;
use vstd::prelude::*;

verus! {

/// The earliest year that a timestamp can hold.
pub const MIN_YEAR: i32 = -262143;

/// The latest year that a timestamp can hold.
pub const MAX_YEAR: i32 = 262142;

/// An instant, as its date and time of day in UTC.
///
/// A leap second is held as second 59 with a `nanosecond` of 1,000,000,000 or
/// more, and is displayed as second 60.
#[derive(Clone, Copy, Debug, PartialEq, Eq, Structural)]
pub struct Timestamp {
    pub year: i32,
    pub month: u32,
    pub day: u32,
    pub hour: u32,
    pub minute: u32,
    pub second: u32,
    pub nanosecond: u32,
}

/// Whether `year` has a 29 February in the proleptic Gregorian calendar.
pub open spec fn is_leap_year(year: int) -> bool {
    year % 4 == 0 && (year % 100 != 0 || year % 400 == 0)
}

/// The number of days of a month, 1 to 12, of `year`.
pub open spec fn days_in_month(year: int, month: int) -> int {
    if month == 2 {
        if is_leap_year(year) {
            29
        } else {
            28
        }
    } else if month == 4 || month == 6 || month == 9 || month == 11 {
        30
    } else {
        31
    }
}

/// The character of a decimal digit, 0 to 9.
pub open spec fn digit_char(digit: int) -> char {
    if digit == 0 {
        '0'
    } else if digit == 1 {
        '1'
    } else if digit == 2 {
        '2'
    } else if digit == 3 {
        '3'
    } else if digit == 4 {
        '4'
    } else if digit == 5 {
        '5'
    } else if digit == 6 {
        '6'
    } else if digit == 7 {
        '7'
    } else if digit == 8 {
        '8'
    } else {
        '9'
    }
}

/// A number below 100 in two digits, with a leading zero where needed.
pub open spec fn two_digits(n: int) -> Seq<char> {
    seq![digit_char(n / 10), digit_char(n % 10)]
}

/// A natural number in decimal, without leading zeros.
pub open spec fn decimal(n: int) -> Seq<char>
    decreases n,
{
    if n < 10 {
        seq![digit_char(n)]
    } else {
        decimal(n / 10).push(digit_char(n % 10))
    }
}

/// A natural number in at least four digits, padded with leading zeros.
pub open spec fn four_digits(n: int) -> Seq<char> {
    if n <= 9999 {
        seq![
            digit_char(n / 1000),
            digit_char(n / 100 % 10),
            digit_char(n / 10 % 10),
            digit_char(n % 10),
        ]
    } else {
        decimal(n)
    }
}

/// A year as displayed: four digits from 0 to 9999, and a sign before the
/// digits of any other year.
pub open spec fn year_text(year: int) -> Seq<char> {
    if 0 <= year <= 9999 {
        four_digits(year)
    } else if year < 0 {
        seq!['-'] + four_digits(-year)
    } else {
        seq!['+'] + four_digits(year)
    }
}

/// The pattern of the display form: day, month and year, then the time of day.
pub open spec fn display_pattern() -> Seq<char> {
    "%d/%m/%Y %H:%M:%S"@
}

/// The display form `DD/MM/YYYY HH:MM:SS` of a timestamp.
pub open spec fn display_text(t: Timestamp) -> Seq<char> {
    two_digits(t.day as int) + seq!['/'] + two_digits(t.month as int) + seq!['/'] + year_text(
        t.year as int,
    ) + seq![' '] + two_digits(t.hour as int) + seq![':'] + two_digits(t.minute as int) + seq![':']
        + two_digits(t.second as int + t.nanosecond as int / 1_000_000_000)
}

/// The value of a decimal digit character.
pub open spec fn digit_value(c: char) -> int {
    c as int - '0' as int
}

/// The number that the `len` characters of `text` from `start` on spell in
/// decimal.
pub open spec fn number_at(text: Seq<char>, start: int, len: nat) -> int
    decreases len,
{
    if len == 0 {
        0
    } else {
        10 * number_at(text, start, (len - 1) as nat) + digit_value(text[start + len - 1])
    }
}

/// Two digits read back as the number they were written for.
proof fn lemma_two_digits_read_back(text: Seq<char>, start: int, n: int)
    requires
        0 <= n < 100,
        text[start] == digit_char(n / 10),
        text[start + 1] == digit_char(n % 10),
    ensures
        number_at(text, start, 2) == n,
{
    reveal_with_fuel(number_at, 3);
}

/// Four digits read back as the number they were written for.
proof fn lemma_four_digits_read_back(text: Seq<char>, start: int, n: int)
    requires
        0 <= n < 10000,
        text[start] == digit_char(n / 1000),
        text[start + 1] == digit_char(n / 100 % 10),
        text[start + 2] == digit_char(n / 10 % 10),
        text[start + 3] == digit_char(n % 10),
    ensures
        number_at(text, start, 4) == n,
{
    reveal_with_fuel(number_at, 5);
}

/// The display form shows the fields of the instant and nothing else: for a
/// year of four digits it is nineteen characters long, and read back in place
/// each number is the field it stands for, a leap second being second 60.
pub proof fn lemma_display_shows_the_fields(t: Timestamp)
    requires
        t.wf(),
        0 <= t.year <= 9999,
    ensures
        display_text(t).len() == 19,
        number_at(display_text(t), 0, 2) == t.day,
        display_text(t)[2] == '/',
        number_at(display_text(t), 3, 2) == t.month,
        display_text(t)[5] == '/',
        number_at(display_text(t), 6, 4) == t.year,
        display_text(t)[10] == ' ',
        number_at(display_text(t), 11, 2) == t.hour,
        display_text(t)[13] == ':',
        number_at(display_text(t), 14, 2) == t.minute,
        display_text(t)[16] == ':',
        number_at(display_text(t), 17, 2) == t.second + t.nanosecond / 1_000_000_000,
{
    let shown = display_text(t);
    let second = t.second as int + t.nanosecond as int / 1_000_000_000;
    lemma_two_digits_read_back(shown, 0, t.day as int);
    lemma_two_digits_read_back(shown, 3, t.month as int);
    lemma_four_digits_read_back(shown, 6, t.year as int);
    lemma_two_digits_read_back(shown, 11, t.hour as int);
    lemma_two_digits_read_back(shown, 14, t.minute as int);
    lemma_two_digits_read_back(shown, 17, second);
}

/// The UTC fields of the instant that an RFC 3339 text denotes, if it denotes one.
pub uninterp spec fn rfc3339_utc(text: Seq<char>) -> Option<Timestamp>;

/// `chrono::DateTime::parse_from_rfc3339`, with the instant it yields moved to
/// UTC by `DateTime::with_timezone` and read field by field. The grammar is
/// not spelled out here: the result is given its name, and each field is in
/// the range that chrono documents for it.
#[verifier::external_body]
pub(crate) fn parse_rfc3339(text: &str) -> (parsed: Option<Timestamp>)
    ensures
        parsed == rfc3339_utc(text@),
        parsed matches Some(t) ==> t.wf(),
{
    let utc = chrono::DateTime::parse_from_rfc3339(text).ok()?.with_timezone(&chrono::Utc);
    let (year, month, day) = (utc.year(), utc.month(), utc.day());
    let (hour, minute, second) = (utc.hour(), utc.minute(), utc.second());
    Some(Timestamp { year, month, day, hour, minute, second, nanosecond: utc.nanosecond() })
}

/// `chrono::DateTime::format` on the instant that the fields of `t` denote in
/// UTC. For a valid timestamp and the display pattern chrono writes day,
/// month, hour, minute and second in two digits each and the year in four,
/// with a sign before a year outside 0 to 9999. Nothing is claimed of another
/// pattern or of fields that denote no instant.
#[verifier::external_body]
pub(crate) fn format_utc(t: &Timestamp, pattern: &str) -> (shown: Option<String>)
    ensures
        match shown {
            Some(s) => t.wf() && pattern@ == display_pattern() ==> s@ == display_text(*t),
            None => !(t.wf() && pattern@ == display_pattern()),
        },
{
    let date = chrono::NaiveDate::from_ymd_opt(t.year, t.month, t.day)?;
    let utc = date.and_hms_nano_opt(t.hour, t.minute, t.second, t.nanosecond)?.and_utc();
    let mut text = String::new();
    write!(text, "{}", utc.format(pattern)).ok()?;
    Some(text)
}

/// `chrono::Utc::now`, read field by field. Which instant comes back is the
/// clock's business; the fields always denote one.
#[verifier::external_body]
pub(crate) fn now_utc() -> (now: Timestamp)
    ensures
        now.wf(),
{
    let utc = chrono::Utc::now();
    let (year, month, day) = (utc.year(), utc.month(), utc.day());
    let (hour, minute, second) = (utc.hour(), utc.minute(), utc.second());
    Timestamp { year, month, day, hour, minute, second, nanosecond: utc.nanosecond() }
}

/// Whether `year` is a leap year.
pub fn leap_year(year: i32) -> (leap: bool)
    ensures
        leap == is_leap_year(year as int),
{
    // 2_147_484_000 is a multiple of 400 that lifts every year above zero.
    let lifted: i64 = year as i64 + 2_147_484_000;
    lifted % 4 == 0 && (lifted % 100 != 0 || lifted % 400 == 0)
}

/// The number of days of `month` in `year`.
pub fn month_length(year: i32, month: u32) -> (days: u32)
    ensures
        days == days_in_month(year as int, month as int),
{
    if month == 2 {
        if leap_year(year) {
            29
        } else {
            28
        }
    } else if month == 4 || month == 6 || month == 9 || month == 11 {
        30
    } else {
        31
    }
}

impl Timestamp {
    /// The fields denote an instant: a day that the calendar has, and a time
    /// of day with at most one leap second after second 59.
    pub open spec fn wf(&self) -> bool {
        &&& MIN_YEAR <= self.year <= MAX_YEAR
        &&& 1 <= self.month <= 12
        &&& 1 <= self.day <= days_in_month(self.year as int, self.month as int)
        &&& self.hour < 24
        &&& self.minute < 60
        &&& self.second < 60
        &&& self.nanosecond < 2_000_000_000
        &&& self.nanosecond >= 1_000_000_000 ==> self.second == 59
    }

    /// Whether the fields denote an instant.
    pub fn is_valid(&self) -> (valid: bool)
        ensures
            valid == self.wf(),
    {
        MIN_YEAR <= self.year && self.year <= MAX_YEAR && 1 <= self.month && self.month <= 12 && 1
            <= self.day && self.day <= month_length(self.year, self.month) && self.hour < 24
            && self.minute < 60 && self.second < 60 && self.nanosecond < 2_000_000_000 && (
        self.nanosecond < 1_000_000_000 || self.second == 59)
    }

    /// The timestamp of a date and a time of day on a whole second, or `None`
    /// where the calendar has no such day or the day no such time.
    pub fn new(year: i32, month: u32, day: u32, hour: u32, minute: u32, second: u32) -> (made:
        Option<Timestamp>)
        ensures
            made matches Some(t) ==> t == (Timestamp {
                year,
                month,
                day,
                hour,
                minute,
                second,
                nanosecond: 0,
            }),
            made is Some <==> (Timestamp {
                year,
                month,
                day,
                hour,
                minute,
                second,
                nanosecond: 0,
            }).wf(),
    {
        let t = Timestamp { year, month, day, hour, minute, second, nanosecond: 0 };
        if t.is_valid() {
            Some(t)
        } else {
            None
        }
    }

    /// Reads an RFC 3339 date-time and moves it to UTC. `None` where the text
    /// is no such date-time.
    pub fn parse(text: &str) -> (parsed: Option<Timestamp>)
        ensures
            parsed == rfc3339_utc(text@),
            parsed matches Some(t) ==> t.wf(),
    {
        parse_rfc3339(text)
    }

    /// The present instant.
    pub fn now() -> (now: Timestamp)
        ensures
            now.wf(),
    {
        now_utc()
    }

    /// The timestamp in the form `DD/MM/YYYY HH:MM:SS`.
    pub fn display(&self) -> (text: String)
        requires
            self.wf(),
        ensures
            text@ == display_text(*self),
    {
        match format_utc(self, "%d/%m/%Y %H:%M:%S") {
            Some(text) => text,
            // A valid timestamp always has a display form.
            None => String::new(),
        }
    }
}

} // verus!
