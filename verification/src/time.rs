//! Calendar dates and times of day, as plain numbers.
//!
//! A stored time is naive: a date and a time of day with no zone. A time
//! shown to a client is the same reading understood as UTC. Both are ordered
//! field by field, from the year down to the nanosecond.

use chrono::Datelike;
use chrono::Timelike;
use vstd::prelude::*;

verus! {

/// The first year that a date can hold.
pub const MIN_YEAR: i32 = -262143;

/// The last year that a date can hold.
pub const MAX_YEAR: i32 = 262142;

/// Whether `year` has a 29th of February in the proleptic Gregorian calendar.
pub open spec fn is_leap_year(year: int) -> bool {
    year % 4 == 0 && (year % 100 != 0 || year % 400 == 0)
}

/// The number of days of `month` in `year`; 0 where `month` is no month.
pub open spec fn days_in_month(year: int, month: int) -> int {
    if month == 2 {
        if is_leap_year(year) {
            29
        } else {
            28
        }
    } else if month == 4 || month == 6 || month == 9 || month == 11 {
        30
    } else if 1 <= month <= 12 {
        31
    } else {
        0
    }
}

/// Whether the three numbers name a day of the calendar.
pub open spec fn is_calendar_day(year: int, month: int, day: int) -> bool {
    &&& MIN_YEAR <= year <= MAX_YEAR
    &&& 1 <= month <= 12
    &&& 1 <= day <= days_in_month(year, month)
}

/// Whether `year` has a 29th of February.
pub fn leap_year(year: i32) -> (leap: bool)
    ensures
        leap == is_leap_year(year as int),
{
    // 2147484000 is a multiple of 400, so the shift keeps the three remainders.
    let shifted: u64 = (year as i64 + 2147484000) as u64;
    assert(shifted as int % 400 == year as int % 400 && shifted as int % 100 == year as int % 100
        && shifted as int % 4 == year as int % 4) by {
        vstd::arithmetic::div_mod::lemma_mod_multiples_vanish(5368710, year as int, 400);
        vstd::arithmetic::div_mod::lemma_mod_multiples_vanish(21474840, year as int, 100);
        vstd::arithmetic::div_mod::lemma_mod_multiples_vanish(536871000, year as int, 4);
    }
    shifted % 4 == 0 && (shifted % 100 != 0 || shifted % 400 == 0)
}

/// A day of the proleptic Gregorian calendar.
#[derive(Clone, Copy, Debug, PartialEq, Eq, Structural)]
pub struct Date {
    pub year: i32,
    pub month: u32,
    pub day: u32,
}

/// A date and a time of day, without a zone.
///
/// In the last second of a minute `nanosecond` may reach 1,999,999,999: the
/// second thousand million stands for a leap second.
#[derive(Clone, Copy, Debug, PartialEq, Eq, Structural)]
pub struct DateTime {
    pub date: Date,
    pub hour: u32,
    pub minute: u32,
    pub second: u32,
    pub nanosecond: u32,
}

/// A date and a time of day in UTC.
#[derive(Clone, Copy, Debug, PartialEq, Eq, Structural)]
pub struct UtcDateTime {
    pub utc: DateTime,
}

/// What the outside parser makes of `text` under the pattern year, hyphen,
/// month, hyphen, day: the three numbers, or nothing where it rejects the text.
pub uninterp spec fn parsed_date(text: Seq<char>) -> Option<(int, int, int)>;

/// How the outside crate writes a naive date and time: the date, a space and
/// the time of day.
pub uninterp spec fn datetime_text(
    year: int,
    month: int,
    day: int,
    hour: int,
    minute: int,
    second: int,
    nanosecond: int,
) -> Seq<char>;

/// What the outside parser makes of a text that should be a date and time
/// with an offset: the reading in UTC, as year, month, day, hour, minute,
/// second and nanosecond, or the words in which it refuses the text.
pub uninterp spec fn utc_from_text(text: Seq<char>) -> Result<
    (int, int, int, int, int, int, int),
    Seq<char>,
>;

impl Date {
    /// The date names a day of the calendar.
    pub open spec fn wf(&self) -> bool {
        is_calendar_day(self.year as int, self.month as int, self.day as int)
    }

    /// `self` is an earlier day than `other`.
    pub open spec fn is_before(&self, other: Date) -> bool {
        ||| self.year < other.year
        ||| self.year == other.year && self.month < other.month
        ||| self.year == other.year && self.month == other.month && self.day < other.day
    }

    /// The day with these numbers, if the calendar has it.
    pub fn from_ymd_opt(year: i32, month: u32, day: u32) -> (date: Option<Date>)
        ensures
            date is Some <==> is_calendar_day(year as int, month as int, day as int),
            date matches Some(d) ==> d == (Date { year, month, day }),
    {
        if year < MIN_YEAR || year > MAX_YEAR || month < 1 || month > 12 || day < 1 {
            return None;
        }
        let leap = leap_year(year);
        let days: u32 = if month == 2 {
            if leap {
                29
            } else {
                28
            }
        } else if month == 4 || month == 6 || month == 9 || month == 11 {
            30
        } else {
            31
        };
        if day <= days {
            Some(Date { year, month, day })
        } else {
            None
        }
    }

    /// This day at the given time, if the day has that time.
    pub fn and_hms_opt(&self, hour: u32, min: u32, sec: u32) -> (at: Option<DateTime>)
        ensures
            at is Some <==> hour < 24 && min < 60 && sec < 60,
            at matches Some(t) ==> t == (DateTime {
                date: *self,
                hour,
                minute: min,
                second: sec,
                nanosecond: 0,
            }),
    {
        if hour < 24 && min < 60 && sec < 60 {
            Some(DateTime { date: *self, hour, minute: min, second: sec, nanosecond: 0 })
        } else {
            None
        }
    }

    /// The first instant of this day.
    pub open spec fn start_of_day(&self) -> DateTime {
        DateTime { date: *self, hour: 0, minute: 0, second: 0, nanosecond: 0 }
    }

    /// The last whole second of this day.
    pub open spec fn end_of_day(&self) -> DateTime {
        DateTime { date: *self, hour: 23, minute: 59, second: 59, nanosecond: 0 }
    }
}

impl DateTime {
    /// The date is a day of the calendar and the time is a time of day.
    pub open spec fn wf(&self) -> bool {
        &&& self.date.wf()
        &&& self.hour < 24
        &&& self.minute < 60
        &&& self.second < 60
        &&& (self.nanosecond < 1_000_000_000 || (self.second == 59 && self.nanosecond
            < 2_000_000_000))
    }

    /// The instant as it is written in messages.
    pub open spec fn text(&self) -> Seq<char> {
        datetime_text(
            self.date.year as int,
            self.date.month as int,
            self.date.day as int,
            self.hour as int,
            self.minute as int,
            self.second as int,
            self.nanosecond as int,
        )
    }

    /// `self` is an earlier instant than `other`.
    pub open spec fn is_before(&self, other: DateTime) -> bool {
        ||| self.date.is_before(other.date)
        ||| self.date == other.date && self.hour < other.hour
        ||| self.date == other.date && self.hour == other.hour && self.minute < other.minute
        ||| self.date == other.date && self.hour == other.hour && self.minute == other.minute
            && self.second < other.second
        ||| self.date == other.date && self.hour == other.hour && self.minute == other.minute
            && self.second == other.second && self.nanosecond < other.nanosecond
    }

    /// `self` is `other` or an earlier instant.
    pub open spec fn is_at_or_before(&self, other: DateTime) -> bool {
        *self == other || self.is_before(other)
    }

    /// Whether the date is a day of the calendar and the time a time of day.
    pub fn is_valid(&self) -> (valid: bool)
        ensures
            valid == self.wf(),
    {
        Date::from_ymd_opt(self.date.year, self.date.month, self.date.day).is_some() && self.hour
            < 24 && self.minute < 60 && self.second < 60 && (self.nanosecond < 1_000_000_000 || (
        self.second == 59 && self.nanosecond < 2_000_000_000))
    }

    /// Whether `self` is `other` or earlier.
    pub fn le(&self, other: &DateTime) -> (b: bool)
        ensures
            b == self.is_at_or_before(*other),
    {
        let a = self;
        let b = other;
        if a.date.year != b.date.year {
            a.date.year < b.date.year
        } else if a.date.month != b.date.month {
            a.date.month < b.date.month
        } else if a.date.day != b.date.day {
            a.date.day < b.date.day
        } else if a.hour != b.hour {
            a.hour < b.hour
        } else if a.minute != b.minute {
            a.minute < b.minute
        } else if a.second != b.second {
            a.second < b.second
        } else {
            a.nanosecond <= b.nanosecond
        }
    }

    /// Whether `self` is `other` or later.
    pub fn ge(&self, other: &DateTime) -> (b: bool)
        ensures
            b == other.is_at_or_before(*self),
    {
        other.le(self)
    }

    /// Whether the two are the same instant.
    pub fn same(&self, other: &DateTime) -> (b: bool)
        ensures
            b == (*self == *other),
    {
        self.date.year == other.date.year && self.date.month == other.date.month && self.date.day
            == other.date.day && self.hour == other.hour && self.minute == other.minute
            && self.second == other.second && self.nanosecond == other.nanosecond
    }

    /// The current time in UTC, read from the system clock.
    pub fn now() -> (t: DateTime)
        ensures
            t.wf(),
    {
        clock_now()
    }
}

impl UtcDateTime {
    /// A naive reading understood as UTC: every field stays as it is.
    pub fn from_naive_utc(naive: &DateTime) -> (t: UtcDateTime)
        ensures
            t.utc == *naive,
    {
        UtcDateTime { utc: *naive }
    }

    /// The reading without its zone.
    pub fn naive_utc(&self) -> (naive: DateTime)
        ensures
            naive == self.utc,
    {
        self.utc
    }

    /// The minute of the hour.
    pub fn minute(&self) -> (m: u32)
        ensures
            m == self.utc.minute,
    {
        self.utc.minute
    }
}

/// `chrono::NaiveDate::parse_from_str` with the pattern `%Y-%m-%d`, and the
/// getters of `chrono::Datelike` on what it returns. The contract gives the
/// parser's verdict a name, `parsed_date`, and claims that a date which the
/// parser accepts is a day of the calendar, as every `NaiveDate` is.
#[verifier::external_body]
pub(crate) fn parse_ymd(text: &str) -> (date: Option<Date>)
    ensures
        date is Some <==> parsed_date(text@) is Some,
        date matches Some(d) ==> d.wf() && parsed_date(text@) == Some(
            (d.year as int, d.month as int, d.day as int),
        ),
{
    match chrono::NaiveDate::parse_from_str(text, "%Y-%m-%d") {
        Ok(d) => Some(Date { year: d.year(), month: d.month(), day: d.day() }),
        Err(_) => None,
    }
}

/// `chrono::NaiveDate::from_ymd_opt`, `and_hms_nano_opt` on the date, and
/// `to_string` on the `chrono::NaiveDateTime` that they give. The contract
/// gives the text a name, `datetime_text`. The two constructors accept every
/// reading that `wf` admits, so neither `unwrap` panics.
#[verifier::external_body]
pub(crate) fn format_datetime(t: &DateTime) -> (s: String)
    requires
        t.wf(),
    ensures
        s@ == datetime_text(
            t.date.year as int,
            t.date.month as int,
            t.date.day as int,
            t.hour as int,
            t.minute as int,
            t.second as int,
            t.nanosecond as int,
        ),
{
    let date = chrono::NaiveDate::from_ymd_opt(t.date.year, t.date.month, t.date.day).unwrap();
    date.and_hms_nano_opt(t.hour, t.minute, t.second, t.nanosecond).unwrap().to_string()
}

/// The numbers of a reading in UTC.
pub open spec fn utc_numbers(t: UtcDateTime) -> (int, int, int, int, int, int, int) {
    (
        t.utc.date.year as int,
        t.utc.date.month as int,
        t.utc.date.day as int,
        t.utc.hour as int,
        t.utc.minute as int,
        t.utc.second as int,
        t.utc.nanosecond as int,
    )
}

/// `from_str` of `chrono::DateTime<chrono::Utc>`, the getters of
/// `chrono::Datelike` and `chrono::Timelike` on the `naive_utc` of what it
/// returns, and `to_string` on its error. The contract gives the outcome a
/// name, `utc_from_text`, and claims that a reading which the parser returns
/// is a day of the calendar and a time of day.
#[verifier::external_body]
pub(crate) fn parse_utc(text: &str) -> (parsed: Result<UtcDateTime, String>)
    ensures
        match parsed {
            Ok(t) => t.utc.wf() && utc_from_text(text@) == Ok::<
                (int, int, int, int, int, int, int),
                Seq<char>,
            >(utc_numbers(t)),
            Err(e) => utc_from_text(text@) == Err::<(int, int, int, int, int, int, int), Seq<char>>(
                e@,
            ),
        },
{
    match <chrono::DateTime<chrono::Utc> as std::str::FromStr>::from_str(text) {
        Ok(t) => {
            let t = t.naive_utc();
            let date = Date { year: t.year(), month: t.month(), day: t.day() };
            let (hour, minute, second) = (t.hour(), t.minute(), t.second());
            Ok(UtcDateTime { utc: DateTime { date, hour, minute, second, nanosecond: t.nanosecond() } })
        },
        Err(e) => Err(e.to_string()),
    }
}

/// `chrono::Utc::now` followed by `naive_utc`, and the getters of
/// `chrono::Datelike` and `chrono::Timelike` on the result. The contract
/// claims only that the reading is a day of the calendar and a time of day.
/// The outside function panics where the system clock stands before 1970.
#[verifier::external_body]
fn clock_now() -> (t: DateTime)
    ensures
        t.wf(),
{
    let now = chrono::Utc::now().naive_utc();
    DateTime {
        date: Date { year: now.year(), month: now.month(), day: now.day() },
        hour: now.hour(),
        minute: now.minute(),
        second: now.second(),
        nanosecond: now.nanosecond(),
    }
}

} // verus!
