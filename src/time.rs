//! Calendar dates and times of day without a time zone, and the calls into
//! chrono that read them and step back one day.

use chrono::format::ParseErrorKind as Kind;
use chrono::Datelike;
use chrono::Timelike;
use vstd::prelude::*;

verus! {

/// The earliest year that chrono's dates reach.
pub const MIN_YEAR: i32 = -262143;

/// The latest year that chrono's dates reach.
pub const MAX_YEAR: i32 = 262142;

/// Seconds in one day.
pub const SECONDS_PER_DAY: u32 = 86400;

/// A day of the proleptic Gregorian calendar.
#[derive(Clone, Copy, Debug, PartialEq, Eq, Structural, Hash)]
pub struct Date {
    pub year: i32,
    pub month: u8,
    pub day: u8,
}

/// A time of day. As in chrono, a leap second is second 59 with
/// `nanosecond` at one billion or more.
#[derive(Clone, Copy, Debug, PartialEq, Eq, Structural, Hash)]
pub struct TimeOfDay {
    pub hour: u8,
    pub minute: u8,
    pub second: u8,
    pub nanosecond: u32,
}

/// Why a text does not read as a date and time; the kinds of chrono's
/// `ParseErrorKind`.
#[derive(Clone, Copy, Debug, PartialEq, Eq, Structural)]
pub enum TimestampError {
    OutOfRange,
    Impossible,
    NotEnough,
    Invalid,
    TooShort,
    TooLong,
    BadFormat,
    Other,
}

/// Nanoseconds in one second.
pub const NANOS_PER_SECOND: u64 = 1000000000;

/// A date and a time of day, with no time zone.
#[derive(Clone, Copy, Debug, PartialEq, Eq, Structural, Hash)]
pub struct DateTime {
    pub date: Date,
    pub time: TimeOfDay,
}

pub open spec fn is_leap_year(y: int) -> bool {
    (y % 4 == 0 && y % 100 != 0) || y % 400 == 0
}

pub open spec fn days_in_month(y: int, m: int) -> int {
    if m == 2 {
        if is_leap_year(y) {
            29
        } else {
            28
        }
    } else if m == 4 || m == 6 || m == 9 || m == 11 {
        30
    } else {
        31
    }
}

impl Date {
    /// A real calendar day within chrono's range.
    pub open spec fn wf(self) -> bool {
        &&& MIN_YEAR <= self.year <= MAX_YEAR
        &&& 1 <= self.month <= 12
        &&& 1 <= self.day <= days_in_month(self.year as int, self.month as int)
    }

    /// The first day that chrono can represent.
    pub open spec fn is_first(self) -> bool {
        self.year == MIN_YEAR && self.month == 1 && self.day == 1
    }

    /// The day before this one.
    pub open spec fn previous(self) -> Date {
        if self.day > 1 {
            Date { year: self.year, month: self.month, day: (self.day - 1) as u8 }
        } else if self.month > 1 {
            Date {
                year: self.year,
                month: (self.month - 1) as u8,
                day: days_in_month(self.year as int, self.month - 1) as u8,
            }
        } else {
            Date { year: (self.year - 1) as i32, month: 12, day: 31 }
        }
    }
}

impl TimeOfDay {
    pub open spec fn wf(self) -> bool {
        &&& self.hour < 24 && self.minute < 60 && self.second < 60
        &&& self.nanosecond < 2 * NANOS_PER_SECOND
        &&& self.nanosecond >= NANOS_PER_SECOND ==> self.second == 59
    }

    /// Nanoseconds elapsed since midnight, a leap second included.
    pub open spec fn nanos(self) -> nat {
        (self.hour as nat * 3600 + self.minute as nat * 60 + self.second as nat)
            * NANOS_PER_SECOND as nat + self.nanosecond as nat
    }

    /// Whole seconds elapsed since midnight.
    pub open spec fn seconds(self) -> nat {
        self.nanos() / NANOS_PER_SECOND as nat
    }

    /// Nanoseconds elapsed since midnight, a leap second included.
    pub fn nanos_since_midnight(&self) -> (r: u64)
        requires
            self.wf(),
        ensures
            r as nat == self.nanos(),
    {
        (self.hour as u64 * 3600 + self.minute as u64 * 60 + self.second as u64) * NANOS_PER_SECOND
            + self.nanosecond as u64
    }

    /// Whole seconds elapsed since midnight, a leap second included.
    pub fn since_midnight(&self) -> (r: u32)
        requires
            self.wf(),
        ensures
            r as nat == self.seconds(),
            r <= SECONDS_PER_DAY,
    {
        let n = self.nanos_since_midnight();
        assert(n / NANOS_PER_SECOND <= SECONDS_PER_DAY as u64) by (nonlinear_arith)
            requires
                n < 86401 * NANOS_PER_SECOND,
        ;
        (n / NANOS_PER_SECOND) as u32
    }
}

impl DateTime {
    pub open spec fn wf(self) -> bool {
        self.date.wf() && self.time.wf()
    }
}

/// What chrono's `NaiveDateTime::parse_from_str` reads from a text with a format.
pub uninterp spec fn parsed_date_time(s: Seq<char>, fmt: Seq<char>) -> Result<DateTime, TimestampError>;

/// What chrono's `NaiveTime::parse_from_str` reads from a text with a format.
pub uninterp spec fn parsed_time_of_day(s: Seq<char>, fmt: Seq<char>) -> Option<TimeOfDay>;

/// Relies on chrono's `NaiveDateTime::parse_from_str`, whose result depends on
/// the text and the format alone, and on `ParseError::kind` for why it fails; a
/// date and time it returns lies within chrono's range (month 1 to 12, a day of
/// that month, hour 0 to 23, minute and second 0 to 59, and a nanosecond below
/// two billion that reaches one billion only in second 59).
#[verifier::external_body]
pub(crate) fn parse_date_time(s: &str, fmt: &str) -> (r: Result<DateTime, TimestampError>)
    ensures
        r == parsed_date_time(s@, fmt@),
        r matches Ok(t) ==> t.wf(),
{
    match chrono::NaiveDateTime::parse_from_str(s, fmt) {
        Ok(t) => Ok(DateTime { date: Date { year: t.year(), month: t.month() as u8, day: t.day() as u8 },
            time: TimeOfDay { hour: t.hour() as u8, minute: t.minute() as u8, second: t.second() as u8,
            nanosecond: t.nanosecond() } }),
        Err(e) => Err(match e.kind() {
            Kind::OutOfRange => TimestampError::OutOfRange,
            Kind::Impossible => TimestampError::Impossible,
            Kind::NotEnough => TimestampError::NotEnough,
            Kind::Invalid => TimestampError::Invalid,
            Kind::TooShort => TimestampError::TooShort,
            Kind::TooLong => TimestampError::TooLong,
            Kind::BadFormat => TimestampError::BadFormat,
            _ => TimestampError::Other,
        }),
    }
}

/// Relies on chrono's `NaiveTime::parse_from_str`, whose result depends on the
/// text and the format alone; its accessors give hour 0 to 23, minute and
/// second 0 to 59, and a nanosecond below two billion that reaches one billion
/// only in second 59.
#[verifier::external_body]
pub(crate) fn parse_time_of_day(s: &str, fmt: &str) -> (r: Option<TimeOfDay>)
    ensures
        r == parsed_time_of_day(s@, fmt@),
        r matches Some(t) ==> t.wf(),
{
    match chrono::NaiveTime::parse_from_str(s, fmt) {
        Ok(t) => Some(TimeOfDay {
            hour: t.hour() as u8,
            minute: t.minute() as u8,
            second: t.second() as u8,
            nanosecond: t.nanosecond(),
        }),
        Err(_) => None,
    }
}

/// Relies on chrono's `NaiveDate::from_ymd_opt`, which accepts every valid
/// date, and `NaiveDate::pred_opt`, which gives the day before, or `None` on
/// the first day of chrono's range.
#[verifier::external_body]
pub(crate) fn previous_date(d: Date) -> (r: Option<Date>)
    requires
        d.wf(),
    ensures
        d.is_first() ==> r is None,
        !d.is_first() ==> r == Some(d.previous()),
{
    match chrono::NaiveDate::from_ymd_opt(d.year, d.month as u32, d.day as u32).and_then(|x| x.pred_opt()) {
        Some(p) => Some(Date { year: p.year(), month: p.month() as u8, day: p.day() as u8 }),
        None => None,
    }
}

} // verus!
