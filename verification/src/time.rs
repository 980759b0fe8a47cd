//! Points in time, as the gateway wants them written.
//!
//! A scheduled delivery is given as a calendar date and a time of day in
//! UTC. On the wire it is `YYYY-MM-DDTHH:MM:SS`: no zone and no fraction of
//! a second.

use vstd::prelude::*;
use crate::text::{all_digits, digit_char, is_digit, lemma_nat_text_digits, nat_text};

verus! {

/// The first year that a date can lie in.
pub const MIN_YEAR: i32 = -262143;

/// The last year that a date can lie in.
pub const MAX_YEAR: i32 = 262142;

/// The pattern of the wire form, in `strftime` notation.
pub const TIME_PATTERN: &'static str = "%Y-%m-%dT%H:%M:%S";

/// The fields of a point in time, as plain numbers.
pub struct CivilTime {
    /// The year of the proleptic Gregorian calendar; the year 0 is 1 BCE.
    pub year: int,
    /// The month, from 1.
    pub month: int,
    /// The day of the month, from 1.
    pub day: int,
    /// The hour of the day, from 0.
    pub hour: int,
    /// The minute of the hour, from 0.
    pub minute: int,
    /// The second of the minute, from 0.
    pub second: int,
    /// The nanosecond of the second, from 0; from 1,000,000,000 during a
    /// leap second.
    pub nanosecond: int,
}

/// Whether `year` is a leap year of the proleptic Gregorian calendar.
pub open spec fn is_leap_year(year: int) -> bool {
    year % 4 == 0 && (year % 100 != 0 || year % 400 == 0)
}

/// The number of days of the month `month` of `year`; 0 where there is no
/// such month.
pub open spec fn days_in_month(year: int, month: int) -> int {
    if month == 1 || month == 3 || month == 5 || month == 7 || month == 8 || month == 10 || month
        == 12 {
        31
    } else if month == 4 || month == 6 || month == 9 || month == 11 {
        30
    } else if month == 2 {
        if is_leap_year(year) {
            29
        } else {
            28
        }
    } else {
        0
    }
}

/// `n`, from 0 to 99, in two digits.
pub open spec fn two_digits(n: int) -> Seq<char> {
    seq![digit_char(n / 10), digit_char(n % 10)]
}

/// `n` in decimal, with zeros in front where it has fewer than four digits.
pub open spec fn four_digits(n: nat) -> Seq<char> {
    if n <= 9999 {
        seq![
            digit_char(n as int / 1000),
            digit_char(n as int / 100 % 10),
            digit_char(n as int / 10 % 10),
            digit_char(n as int % 10),
        ]
    } else {
        nat_text(n)
    }
}

/// The numeral of a year: four digits for the years 0 to 9999, a sign and
/// at least four digits for the others.
pub open spec fn year_text(year: int) -> Seq<char> {
    if year < 0 {
        seq!['-'] + four_digits((-year) as nat)
    } else if year > 9999 {
        seq!['+'] + four_digits(year as nat)
    } else {
        four_digits(year as nat)
    }
}

impl CivilTime {
    /// Whether there is such a day in the calendar, within the years that
    /// can be held.
    pub open spec fn is_calendar_date(self) -> bool {
        &&& MIN_YEAR <= self.year <= MAX_YEAR
        &&& 1 <= self.month <= 12
        &&& 1 <= self.day <= days_in_month(self.year, self.month)
    }

    /// Whether there is such a time of day. A nanosecond of 1,000,000,000 or
    /// more stands for a leap second, and is in order in second 59 only.
    pub open spec fn is_time_of_day(self) -> bool {
        &&& 0 <= self.hour < 24
        &&& 0 <= self.minute < 60
        &&& 0 <= self.second < 60
        &&& 0 <= self.nanosecond < 2_000_000_000
        &&& self.nanosecond >= 1_000_000_000 ==> self.second == 59
    }

    /// Whether the fields name a point in time.
    pub open spec fn is_valid(self) -> bool {
        self.is_calendar_date() && self.is_time_of_day()
    }

    /// The second as it is written: 60 during a leap second.
    pub open spec fn written_second(self) -> int {
        self.second + self.nanosecond / 1_000_000_000
    }

    /// The wire form: `YYYY-MM-DDTHH:MM:SS`.
    pub open spec fn wire_text(self) -> Seq<char> {
        year_text(self.year) + seq!['-'] + two_digits(self.month) + seq!['-'] + two_digits(
            self.day,
        ) + seq!['T'] + two_digits(self.hour) + seq![':'] + two_digits(self.minute) + seq![':']
            + two_digits(self.written_second())
    }
}

/// The fields of a point in time, taken together.
pub open spec fn civil_time(
    year: i32,
    month: u32,
    day: u32,
    hour: u32,
    minute: u32,
    second: u32,
    nanosecond: u32,
) -> CivilTime {
    CivilTime {
        year: year as int,
        month: month as int,
        day: day as int,
        hour: hour as int,
        minute: minute as int,
        second: second as int,
        nanosecond: nanosecond as int,
    }
}

/// Whether `s` is the numeral of a year: four digits, or a sign and four
/// digits or more.
pub open spec fn is_year_numeral(s: Seq<char>) -> bool {
    ||| s.len() == 4 && all_digits(s)
    ||| s.len() >= 5 && (s[0] == '+' || s[0] == '-') && all_digits(s.drop_first())
}

/// Whether `s` is a date and a time of day to the second and nothing more:
/// a year, then `-MM-DDTHH:MM:SS`, at which it ends.
pub open spec fn is_plain_timestamp(s: Seq<char>) -> bool {
    let n = s.len() as int;
    &&& n >= 19
    &&& is_year_numeral(s.take(n - 15))
    &&& s[n - 15] == '-'
    &&& is_digit(s[n - 14])
    &&& is_digit(s[n - 13])
    &&& s[n - 12] == '-'
    &&& is_digit(s[n - 11])
    &&& is_digit(s[n - 10])
    &&& s[n - 9] == 'T'
    &&& is_digit(s[n - 8])
    &&& is_digit(s[n - 7])
    &&& s[n - 6] == ':'
    &&& is_digit(s[n - 5])
    &&& is_digit(s[n - 4])
    &&& s[n - 3] == ':'
    &&& is_digit(s[n - 2])
    &&& is_digit(s[n - 1])
}

/// The numeral of a year that can be held is a year numeral, of four digits
/// for the years 0 to 9999.
pub proof fn lemma_year_text_shape(year: int)
    ensures
        is_year_numeral(year_text(year)),
        0 <= year <= 9999 ==> year_text(year).len() == 4,
{
    if year < 0 {
        lemma_nat_text_digits((-year) as nat);
    } else if year > 9999 {
        lemma_nat_text_digits(year as nat);
    }
}

/// The wire form of a point in time ends with its seconds: after
/// `-MM-DDTHH:MM:SS` there is neither a fraction nor a zone. For the years
/// 0 to 9999 it has 19 characters.
pub proof fn lemma_wire_text_is_plain(t: CivilTime)
    requires
        t.is_valid(),
    ensures
        is_plain_timestamp(t.wire_text()),
        0 <= t.year <= 9999 ==> t.wire_text().len() == 19,
{
    let s = t.wire_text();
    let y = year_text(t.year);
    lemma_year_text_shape(t.year);
    assert(s.take(s.len() - 15) =~= y);
}

/// A point in time, in UTC: a day of the proleptic Gregorian calendar and a
/// time of that day. Every value names a point in time that exists.
#[derive(Debug, Clone, Copy, PartialEq, Eq)]
pub struct UtcDateTime {
    year: i32,
    month: u32,
    day: u32,
    hour: u32,
    minute: u32,
    second: u32,
    nanosecond: u32,
}

impl View for UtcDateTime {
    type V = CivilTime;

    closed spec fn view(&self) -> CivilTime {
        CivilTime {
            year: self.year as int,
            month: self.month as int,
            day: self.day as int,
            hour: self.hour as int,
            minute: self.minute as int,
            second: self.second as int,
            nanosecond: self.nanosecond as int,
        }
    }
}

/// Tells whether `year` is a leap year.
fn leap_year(year: i32) -> (b: bool)
    requires
        MIN_YEAR <= year <= MAX_YEAR,
    ensures
        b == is_leap_year(year as int),
{
    // 262400 is a multiple of 400, so the shift keeps every remainder.
    let shifted: u32 = (year + 262400) as u32;
    shifted % 4 == 0 && (shifted % 100 != 0 || shifted % 400 == 0)
}

/// The number of days of the month `month` of `year`.
fn month_length(year: i32, month: u32) -> (days: u32)
    requires
        MIN_YEAR <= year <= MAX_YEAR,
    ensures
        days == days_in_month(year as int, month as int),
{
    if month == 1 || month == 3 || month == 5 || month == 7 || month == 8 || month == 10 || month
        == 12 {
        31
    } else if month == 4 || month == 6 || month == 9 || month == 11 {
        30
    } else if month == 2 {
        if leap_year(year) {
            29
        } else {
            28
        }
    } else {
        0
    }
}

/// `chrono`'s rendering of a point in time.
///
/// The body builds the date with `NaiveDate::from_ymd_opt`, the time of day
/// with `NaiveDate::and_hms_nano_opt`, and has `DateTime<Utc>::format` write
/// it in the pattern given. The contract claims of them: a value comes back
/// exactly for the fields that name a day of the calendar and a time of that
/// day; and for the pattern `%Y-%m-%dT%H:%M:%S` it is the year in four
/// digits (with a sign outside 0 to 9999), then month, day, hour, minute and
/// second in two digits each, between `-`, `-`, `T`, `:` and `:`.
#[verifier::external_body]
fn format_utc(
    year: i32,
    month: u32,
    day: u32,
    hour: u32,
    minute: u32,
    second: u32,
    nanosecond: u32,
    pattern: &str,
) -> (r: Option<String>)
    requires
        pattern@ == TIME_PATTERN@,
    ensures
        r is Some <==> civil_time(year, month, day, hour, minute, second, nanosecond).is_valid(),
        r matches Some(s) ==> s@ == civil_time(
            year,
            month,
            day,
            hour,
            minute,
            second,
            nanosecond,
        ).wire_text(),
{
    let date = chrono::NaiveDate::from_ymd_opt(year, month, day)?;
    let time = date.and_hms_nano_opt(hour, minute, second, nanosecond)?;
    Some(time.and_utc().format(pattern).to_string())
}

impl UtcDateTime {
    #[verifier::type_invariant]
    spec fn names_a_point_in_time(self) -> bool {
        self@.is_valid()
    }

    /// The point in time with these fields, where there is one.
    pub fn new(
        year: i32,
        month: u32,
        day: u32,
        hour: u32,
        minute: u32,
        second: u32,
        nanosecond: u32,
    ) -> (r: Option<Self>)
        ensures
            r is Some <==> civil_time(
                year,
                month,
                day,
                hour,
                minute,
                second,
                nanosecond,
            ).is_valid(),
            r matches Some(t) ==> t@ == civil_time(
                year,
                month,
                day,
                hour,
                minute,
                second,
                nanosecond,
            ),
    {
        if year < MIN_YEAR || year > MAX_YEAR || month < 1 || month > 12 || day < 1 {
            return None;
        }
        if day > month_length(year, month) {
            return None;
        }
        if hour >= 24 || minute >= 60 || second >= 60 || nanosecond >= 2_000_000_000 {
            return None;
        }
        if nanosecond >= 1_000_000_000 && second != 59 {
            return None;
        }
        Some(UtcDateTime { year, month, day, hour, minute, second, nanosecond })
    }

    /// The year.
    pub fn year(&self) -> (year: i32)
        ensures
            year == self@.year,
    {
        self.year
    }

    /// The month, from 1 to 12.
    pub fn month(&self) -> (month: u32)
        ensures
            month == self@.month,
    {
        self.month
    }

    /// The day of the month, from 1.
    pub fn day(&self) -> (day: u32)
        ensures
            day == self@.day,
    {
        self.day
    }

    /// The hour, from 0 to 23.
    pub fn hour(&self) -> (hour: u32)
        ensures
            hour == self@.hour,
    {
        self.hour
    }

    /// The minute, from 0 to 59.
    pub fn minute(&self) -> (minute: u32)
        ensures
            minute == self@.minute,
    {
        self.minute
    }

    /// The second, from 0 to 59.
    pub fn second(&self) -> (second: u32)
        ensures
            second == self@.second,
    {
        self.second
    }

    /// The nanosecond within the second; 1,000,000,000 or more during a
    /// leap second.
    pub fn nanosecond(&self) -> (nanosecond: u32)
        ensures
            nanosecond == self@.nanosecond,
    {
        self.nanosecond
    }

    /// The wire form of this point in time: `YYYY-MM-DDTHH:MM:SS`.
    pub fn wire_text(&self) -> (s: String)
        ensures
            self@.is_valid(),
            s@ == self@.wire_text(),
            is_plain_timestamp(s@),
    {
        proof {
            use_type_invariant(self);
            lemma_wire_text_is_plain(self@);
        }
        match format_utc(
            self.year,
            self.month,
            self.day,
            self.hour,
            self.minute,
            self.second,
            self.nanosecond,
            TIME_PATTERN,
        ) {
            Some(s) => s,
            None => vstd::pervasive::unreached(),
        }
    }
}

} // verus!
