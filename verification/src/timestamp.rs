//! Calendar timestamps as plain numbers, and their text forms.
//!
//! The text forms are chrono's: this module hands it the fields and a
//! strftime pattern and takes text back, or the other way round.

use crate::digits::{four_digits, two_digits};
use chrono::{Datelike, Timelike};
use vstd::prelude::*;

verus! {

/// The earliest year that a timestamp can carry.
pub const MIN_YEAR: i32 = -262143;

/// The latest year that a timestamp can carry.
pub const MAX_YEAR: i32 = 262142;

/// The pattern of the dates in a metadata record: `2023:07:04 10:15:30`.
pub const RECORD_PATTERN: &'static str = "%Y:%m:%d %H:%M:%S";

/// The pattern of a timeline bucket: `2023-07-Jul`.
pub const BUCKET_PATTERN: &'static str = "%Y-%m-%b";

/// The pattern of a file stem: `2023-07-04_10-15-30`.
pub const STEM_PATTERN: &'static str = "%Y-%m-%d_%H-%M-%S";

/// A date and a time of day without a time zone.
#[derive(Debug, Clone, Copy, PartialEq, Eq, Structural)]
pub struct Timestamp {
    pub year: i32,
    pub month: u32,
    pub day: u32,
    pub hour: u32,
    pub minute: u32,
    pub second: u32,
    /// Nanoseconds past the second; a billion or more marks a leap second.
    pub nanosecond: u32,
}

/// Whether `year` has a 29th of February in the proleptic Gregorian calendar.
pub open spec fn is_leap_year(year: int) -> bool {
    year % 4 == 0 && (year % 100 != 0 || year % 400 == 0)
}

/// The number of days of `month` in `year`.
pub open spec fn days_in_month(year: int, month: int) -> int {
    if month == 2 {
        if is_leap_year(year) { 29 } else { 28 }
    } else if month == 4 || month == 6 || month == 9 || month == 11 {
        30
    } else {
        31
    }
}

/// The patterns that this library formats with.
pub open spec fn is_library_pattern(pattern: Seq<char>) -> bool {
    pattern == RECORD_PATTERN@ || pattern == BUCKET_PATTERN@ || pattern == STEM_PATTERN@
}

/// The English name of a month, cut to three letters.
pub open spec fn month_abbreviation(month: int) -> Seq<char> {
    if month == 1 {
        "Jan"@
    } else if month == 2 {
        "Feb"@
    } else if month == 3 {
        "Mar"@
    } else if month == 4 {
        "Apr"@
    } else if month == 5 {
        "May"@
    } else if month == 6 {
        "Jun"@
    } else if month == 7 {
        "Jul"@
    } else if month == 8 {
        "Aug"@
    } else if month == 9 {
        "Sep"@
    } else if month == 10 {
        "Oct"@
    } else if month == 11 {
        "Nov"@
    } else {
        "Dec"@
    }
}

/// The text that chrono writes for a timestamp under a strftime pattern.
pub uninterp spec fn formatted(stamp: Timestamp, pattern: Seq<char>) -> Seq<char>;

/// The timestamp that chrono reads from a text under a strftime pattern, if
/// the text fits the pattern and names a moment that exists.
pub uninterp spec fn parsed(text: Seq<char>, pattern: Seq<char>) -> Option<Timestamp>;

impl Timestamp {
    /// The timestamp names a day that exists and a time of day on it.
    pub open spec fn wf(&self) -> bool {
        &&& MIN_YEAR <= self.year <= MAX_YEAR
        &&& 1 <= self.month <= 12
        &&& 1 <= self.day <= days_in_month(self.year as int, self.month as int)
        &&& self.hour < 24
        &&& self.minute < 60
        &&& self.second < 60
        &&& (self.nanosecond < 1_000_000_000 || (self.second == 59 && self.nanosecond
            < 2_000_000_000))
    }

    /// Whether the timestamp names a day that exists and a time of day on it.
    pub fn is_valid(&self) -> (valid: bool)
        ensures
            valid == self.wf(),
    {
        if self.year < MIN_YEAR || self.year > MAX_YEAR || self.month < 1 || self.month > 12
            || self.day < 1 || self.hour >= 24 || self.minute >= 60 || self.second >= 60 {
            return false;
        }
        if self.nanosecond >= 2_000_000_000 || (self.nanosecond >= 1_000_000_000 && self.second
            != 59) {
            return false;
        }
        // 262400 is a multiple of 400, so the shift keeps every remainder.
        let shifted: u32 = (self.year + 262400) as u32;
        let leap: bool = shifted % 4 == 0 && (shifted % 100 != 0 || shifted % 400 == 0);
        assert(leap == is_leap_year(self.year as int));
        let days: u32 = if self.month == 2 {
            if leap {
                29
            } else {
                28
            }
        } else if self.month == 4 || self.month == 6 || self.month == 9 || self.month == 11 {
            30
        } else {
            31
        };
        self.day <= days
    }

    /// The timestamp of the given fields at the full second, if there is such
    /// a moment.
    pub fn new(year: i32, month: u32, day: u32, hour: u32, minute: u32, second: u32) -> (stamp:
        Option<Timestamp>)
        ensures
            stamp == (if (Timestamp { year, month, day, hour, minute, second, nanosecond: 0 }).wf() {
                Some(Timestamp { year, month, day, hour, minute, second, nanosecond: 0 })
            } else {
                None
            }),
    {
        let stamp = Timestamp { year, month, day, hour, minute, second, nanosecond: 0 };
        if stamp.is_valid() {
            Some(stamp)
        } else {
            None
        }
    }

    /// The year is written with four digits and no sign.
    pub open spec fn has_plain_year(&self) -> bool {
        0 <= self.year <= 9999
    }

    /// The second as it is written: sixty during a leap second.
    pub open spec fn shown_second(&self) -> int {
        self.second + self.nanosecond / 1_000_000_000
    }

    /// Year, month and day in digits, with `between` between them.
    pub open spec fn date_digits(&self, between: Seq<char>) -> Seq<char> {
        four_digits(self.year as int) + between + two_digits(self.month as int) + between
            + two_digits(self.day as int)
    }

    /// Hour, minute and second in digits, with `between` between them.
    pub open spec fn time_digits(&self, between: Seq<char>) -> Seq<char> {
        two_digits(self.hour as int) + between + two_digits(self.minute as int) + between
            + two_digits(self.shown_second())
    }

    /// The file stem of a year of four digits: `2023-07-04_10-15-30`.
    pub open spec fn stem_digits(&self) -> Seq<char> {
        self.date_digits("-"@) + "_"@ + self.time_digits("-"@)
    }

    /// The timeline bucket of a year of four digits: `2023-07-Jul`.
    pub open spec fn bucket_digits(&self) -> Seq<char> {
        four_digits(self.year as int) + "-"@ + two_digits(self.month as int) + "-"@
            + month_abbreviation(self.month as int)
    }

    /// The record's form of a year of four digits: `2023:07:04 10:15:30`.
    pub open spec fn record_digits(&self) -> Seq<char> {
        self.date_digits(":"@) + " "@ + self.time_digits(":"@)
    }

    /// The file stem of this timestamp.
    pub open spec fn stem_text(&self) -> Seq<char> {
        if self.has_plain_year() {
            self.stem_digits()
        } else {
            formatted(*self, STEM_PATTERN@)
        }
    }

    /// The timeline bucket of this timestamp.
    pub open spec fn bucket_text(&self) -> Seq<char> {
        if self.has_plain_year() {
            self.bucket_digits()
        } else {
            formatted(*self, BUCKET_PATTERN@)
        }
    }

    /// This timestamp as a record writes it.
    pub open spec fn record_text(&self) -> Seq<char> {
        if self.has_plain_year() {
            self.record_digits()
        } else {
            formatted(*self, RECORD_PATTERN@)
        }
    }

    /// The file stem of this timestamp: date and time of day, zero-padded,
    /// on the 24-hour clock.
    pub fn to_stem(&self) -> (text: String)
        requires
            self.wf(),
        ensures
            text@ == self.stem_text(),
    {
        chrono_format(self, STEM_PATTERN)
    }

    /// The timeline bucket of this timestamp: year, month number and month
    /// name.
    pub fn to_bucket(&self) -> (text: String)
        requires
            self.wf(),
        ensures
            text@ == self.bucket_text(),
    {
        chrono_format(self, BUCKET_PATTERN)
    }

    /// This timestamp as a record writes it.
    pub fn to_record(&self) -> (text: String)
        requires
            self.wf(),
        ensures
            text@ == self.record_text(),
    {
        chrono_format(self, RECORD_PATTERN)
    }

    /// Reads a timestamp from `text` under `pattern`.
    pub fn parse(text: &str, pattern: &str) -> (stamp: Option<Timestamp>)
        ensures
            stamp == parsed(text@, pattern@),
            stamp is Some ==> stamp.unwrap().wf(),
    {
        chrono_parse(text, pattern)
    }
}

/// Calls chrono's `NaiveDate::from_ymd_opt`, `NaiveDate::and_hms_nano_opt` and
/// `NaiveDateTime::format`. Believed of them: a well-formed timestamp is one
/// that chrono can build, the library's patterns are ones that it can format
/// with, and the text depends on the fields and the pattern alone. Of a year
/// from 0 to 9999 more is believed, as chrono documents its items: `%Y` is
/// the year in four digits, `%m`, `%d`, `%H`, `%M` and `%S` are two digits
/// each, `%S` is 60 during a leap second, `%b` is the English month name cut
/// to three letters, and every other character of the pattern stands for
/// itself.
#[verifier::external_body]
fn chrono_format(stamp: &Timestamp, pattern: &str) -> (text: String)
    requires
        stamp.wf(),
        is_library_pattern(pattern@),
    ensures
        text@ == formatted(*stamp, pattern@),
        stamp.has_plain_year() && pattern@ == STEM_PATTERN@ ==> text@ == stamp.stem_digits(),
        stamp.has_plain_year() && pattern@ == BUCKET_PATTERN@ ==> text@ == stamp.bucket_digits(),
        stamp.has_plain_year() && pattern@ == RECORD_PATTERN@ ==> text@ == stamp.record_digits(),
{
    let date = chrono::NaiveDate::from_ymd_opt(stamp.year, stamp.month, stamp.day).unwrap();
    let moment = date.and_hms_nano_opt(stamp.hour, stamp.minute, stamp.second, stamp.nanosecond)
        .unwrap();
    moment.format(pattern).to_string()
}

/// Calls chrono's `NaiveDateTime::parse_from_str`. Believed of it: whether it
/// accepts and what it reads depend on the text and the pattern alone, and
/// the fields of what it reads name a moment that exists.
#[verifier::external_body]
fn chrono_parse(text: &str, pattern: &str) -> (stamp: Option<Timestamp>)
    ensures
        stamp == parsed(text@, pattern@),
        stamp is Some ==> stamp.unwrap().wf(),
{
    match chrono::NaiveDateTime::parse_from_str(text, pattern) {
        Ok(moment) => Some(Timestamp {
            year: moment.year(),
            month: moment.month(),
            day: moment.day(),
            hour: moment.hour(),
            minute: moment.minute(),
            second: moment.second(),
            nanosecond: moment.nanosecond(),
        }),
        Err(_) => None,
    }
}

} // verus!
