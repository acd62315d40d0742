//! The portal's date format: `"<day>, <HH:MM:SS>"`, where the day is a
//! keyword for yesterday, today or tomorrow (German or English) or a
//! calendar date such as `5. Apr 2023`.

use vstd::prelude::*;
use crate::text::{
    all_digits, digits_value, find_char, first_index, parse_decimal, same_text,
    trim, trimmed,
};

verus! {

/// The earliest year that chrono's dates can hold.
pub const MIN_YEAR: i32 = -262143;

/// The latest year that chrono's dates can hold.
pub const MAX_YEAR: i32 = 262142;

/// A local wall-clock time.
#[derive(Clone, Copy, Debug, PartialEq, Eq, Structural)]
pub struct WallClock {
    pub year: i32,
    pub month: u32,
    pub day: u32,
    pub hour: u32,
    pub minute: u32,
    pub second: u32,
}

/// Why a date string was refused.
#[derive(Clone, Copy, Debug, PartialEq, Eq, Structural)]
pub enum DateParseError {
    /// No `,` between day and time.
    MissingSeparator,
    /// The time of day is not `HH:MM:SS`.
    InvalidTime,
    /// The day is neither a keyword nor `<day>. <month> <year>`.
    UnknownDateFormat,
    /// The day or the year does not fit its integer type.
    NumberOutOfRange,
    /// The month name is none of the known abbreviations.
    UnknownMonth,
    /// No such day in the calendar.
    InvalidDate,
    /// Moving one day off today leaves the range of dates.
    DateOutOfRange,
    /// The wall-clock time does not exist in the local time zone.
    NonexistentLocalTime,
}

pub open spec fn is_leap_year(y: int) -> bool {
    y % 4 == 0 && (y % 100 != 0 || y % 400 == 0)
}

pub open spec fn days_in_month(y: int, m: int) -> int {
    if m == 2 {
        if is_leap_year(y) { 29 } else { 28 }
    } else if m == 4 || m == 6 || m == 9 || m == 11 {
        30
    } else {
        31
    }
}

/// A day of the proleptic Gregorian calendar within chrono's range.
pub open spec fn valid_civil_date(y: int, m: int, d: int) -> bool {
    &&& MIN_YEAR <= y <= MAX_YEAR
    &&& 1 <= m <= 12
    &&& 1 <= d <= days_in_month(y, m)
}

/// The day after a valid date, where it is in range.
pub open spec fn next_date(y: i32, m: u32, d: u32) -> Option<(i32, u32, u32)> {
    if (d as int) < days_in_month(y as int, m as int) {
        Some((y, m, (d + 1) as u32))
    } else if m < 12 {
        Some((y, (m + 1) as u32, 1u32))
    } else if y < MAX_YEAR {
        Some(((y + 1) as i32, 1u32, 1u32))
    } else {
        None
    }
}

/// The day before a valid date, where it is in range.
pub open spec fn previous_date(y: i32, m: u32, d: u32) -> Option<(i32, u32, u32)> {
    if d > 1 {
        Some((y, m, (d - 1) as u32))
    } else if m > 1 {
        Some((y, (m - 1) as u32, days_in_month(y as int, m - 1) as u32))
    } else if y > MIN_YEAR {
        Some(((y - 1) as i32, 12u32, 31u32))
    } else {
        None
    }
}

impl WallClock {
    /// A valid date and a time of day.
    pub open spec fn wf(self) -> bool {
        &&& valid_civil_date(self.year as int, self.month as int, self.day as int)
        &&& self.hour < 24
        &&& self.minute < 60
        &&& self.second < 60
    }

    /// `self` comes strictly before `other`.
    pub open spec fn precedes(self, other: WallClock) -> bool {
        if self.year != other.year {
            self.year < other.year
        } else if self.month != other.month {
            self.month < other.month
        } else if self.day != other.day {
            self.day < other.day
        } else if self.hour != other.hour {
            self.hour < other.hour
        } else if self.minute != other.minute {
            self.minute < other.minute
        } else {
            self.second < other.second
        }
    }

    /// Whether `self` comes strictly before `other`.
    pub fn is_before(&self, other: &WallClock) -> (r: bool)
        ensures
            r == self.precedes(*other),
    {
        if self.year != other.year {
            self.year < other.year
        } else if self.month != other.month {
            self.month < other.month
        } else if self.day != other.day {
            self.day < other.day
        } else if self.hour != other.hour {
            self.hour < other.hour
        } else if self.minute != other.minute {
            self.minute < other.minute
        } else {
            self.second < other.second
        }
    }
}

/// What chrono's `NaiveTime::parse_from_str` reads from a string in a format,
/// as hour, minute and second.
pub uninterp spec fn parsed_time(s: Seq<char>, format: Seq<char>) -> Option<(u32, u32, u32)>;

/// Relies on chrono's `NaiveTime::parse_from_str`: the result depends on the
/// two strings alone, and a time of day has hour, minute and second in range
/// (a leap second is kept in the fraction, which is dropped here).
#[verifier::external_body]
fn parse_time_of_day(s: &str, format: &str) -> (r: Option<(u32, u32, u32)>)
    ensures
        r == parsed_time(s@, format@),
        r matches Some((h, m, sec)) ==> h < 24 && m < 60 && sec < 60,
{
    chrono::NaiveTime::parse_from_str(s, format)
        .ok()
        .map(|t| (chrono::Timelike::hour(&t), chrono::Timelike::minute(&t), chrono::Timelike::second(&t)))
}

/// Relies on chrono's `NaiveDate::from_ymd_opt`: `Some` exactly for a day of
/// the calendar within chrono's range of years.
#[verifier::external_body]
fn civil_date_exists(y: i32, m: u32, d: u32) -> (r: bool)
    ensures
        r == valid_civil_date(y as int, m as int, d as int),
{
    chrono::NaiveDate::from_ymd_opt(y, m, d).is_some()
}

/// Relies on chrono's `NaiveDate::checked_add_days` with one day: the next
/// day of the calendar, `None` past the last representable date.
#[verifier::external_body]
fn day_after(y: i32, m: u32, d: u32) -> (r: Option<(i32, u32, u32)>)
    requires
        valid_civil_date(y as int, m as int, d as int),
    ensures
        r == next_date(y, m, d),
{
    chrono::NaiveDate::from_ymd_opt(y, m, d)
        .unwrap()
        .checked_add_days(chrono::Days::new(1))
        .map(|n| (chrono::Datelike::year(&n), chrono::Datelike::month(&n), chrono::Datelike::day(&n)))
}

/// Relies on chrono's `NaiveDate::checked_sub_days` with one day: the
/// previous day of the calendar, `None` before the first representable date.
#[verifier::external_body]
fn day_before(y: i32, m: u32, d: u32) -> (r: Option<(i32, u32, u32)>)
    requires
        valid_civil_date(y as int, m as int, d as int),
    ensures
        r == previous_date(y, m, d),
{
    chrono::NaiveDate::from_ymd_opt(y, m, d)
        .unwrap()
        .checked_sub_days(chrono::Days::new(1))
        .map(|n| (chrono::Datelike::year(&n), chrono::Datelike::month(&n), chrono::Datelike::day(&n)))
}

/// Relies on chrono's `Local.with_ymd_and_hms(..).earliest()`: whether the
/// wall-clock time exists in the machine's time zone. Nothing is promised of
/// the answer, which depends on that zone.
#[verifier::external_body]
pub(crate) fn exists_in_local_zone(t: &WallClock) -> (r: bool)
    requires
        t.wf(),
{
    chrono::TimeZone::with_ymd_and_hms(&chrono::Local, t.year, t.month, t.day, t.hour, t.minute, t.second)
        .earliest()
        .is_some()
}

/// The number of a month from its German or English abbreviation.
pub open spec fn month_number(name: Seq<char>) -> Option<u32> {
    if name == "Jan"@ {
        Some(1)
    } else if name == "Feb"@ {
        Some(2)
    } else if name == "Mär"@ || name == "Mar"@ {
        Some(3)
    } else if name == "Apr"@ {
        Some(4)
    } else if name == "Mai"@ || name == "May"@ {
        Some(5)
    } else if name == "Jun"@ {
        Some(6)
    } else if name == "Jul"@ {
        Some(7)
    } else if name == "Aug"@ {
        Some(8)
    } else if name == "Sep"@ {
        Some(9)
    } else if name == "Okt"@ || name == "Oct"@ {
        Some(10)
    } else if name == "Nov"@ {
        Some(11)
    } else if name == "Dez"@ || name == "Dec"@ {
        Some(12)
    } else {
        None
    }
}

/// Looks up a month abbreviation.
pub fn lookup_month(name: &str) -> (r: Option<u32>)
    ensures
        r == month_number(name@),
{
    if same_text(name, "Jan") {
        Some(1)
    } else if same_text(name, "Feb") {
        Some(2)
    } else if same_text(name, "Mär") || same_text(name, "Mar") {
        Some(3)
    } else if same_text(name, "Apr") {
        Some(4)
    } else if same_text(name, "Mai") || same_text(name, "May") {
        Some(5)
    } else if same_text(name, "Jun") {
        Some(6)
    } else if same_text(name, "Jul") {
        Some(7)
    } else if same_text(name, "Aug") {
        Some(8)
    } else if same_text(name, "Sep") {
        Some(9)
    } else if same_text(name, "Okt") || same_text(name, "Oct") {
        Some(10)
    } else if same_text(name, "Nov") {
        Some(11)
    } else if same_text(name, "Dez") || same_text(name, "Dec") {
        Some(12)
    } else {
        None
    }
}

/// The shift in days that a day keyword stands for.
pub open spec fn keyword_offset(d: Seq<char>) -> Option<int> {
    if d == "Gestern"@ || d == "Yesterday"@ {
        Some(-1)
    } else if d == "Heute"@ || d == "Today"@ {
        Some(0)
    } else if d == "Morgen"@ || d == "Tomorrow"@ {
        Some(1)
    } else {
        None
    }
}

/// The date that `<day>. <month> <year>` writes.
pub open spec fn calendar_day(d: Seq<char>) -> Result<(i32, u32, u32), DateParseError> {
    let p = first_index(d, '.');
    if p < 0 || p + 1 >= d.len() || d[p + 1] != ' ' {
        Err(DateParseError::UnknownDateFormat)
    } else {
        let day = d.subrange(0, p);
        let rest = d.subrange(p + 2, d.len() as int);
        let q = first_index(rest, ' ');
        if q <= 0 {
            Err(DateParseError::UnknownDateFormat)
        } else {
            let month = rest.subrange(0, q);
            let year = rest.subrange(q + 1, rest.len() as int);
            if !all_digits(day) || !all_digits(year) {
                Err(DateParseError::UnknownDateFormat)
            } else if digits_value(day) > u32::MAX || digits_value(year) > i32::MAX {
                Err(DateParseError::NumberOutOfRange)
            } else {
                match month_number(month) {
                    None => Err(DateParseError::UnknownMonth),
                    Some(m) => if valid_civil_date(digits_value(year), m as int, digits_value(day)) {
                        Ok((digits_value(year) as i32, m, digits_value(day) as u32))
                    } else {
                        Err(DateParseError::InvalidDate)
                    },
                }
            }
        }
    }
}

/// The date that the day part of a date string stands for, `today` being given.
pub open spec fn resolved_day(d: Seq<char>, today: WallClock) -> Result<(i32, u32, u32), DateParseError> {
    match keyword_offset(d) {
        Some(o) => if o == 0 {
            Ok((today.year, today.month, today.day))
        } else {
            let shifted = if o < 0 {
                previous_date(today.year, today.month, today.day)
            } else {
                next_date(today.year, today.month, today.day)
            };
            match shifted {
                Some(x) => Ok(x),
                None => Err(DateParseError::DateOutOfRange),
            }
        },
        None => calendar_day(d),
    }
}

/// The wall-clock time that a date string written by the portal stands for,
/// `now` being the current time.
pub open spec fn date_of(s: Seq<char>, now: WallClock) -> Result<WallClock, DateParseError> {
    let i = first_index(s, ',');
    if i < 0 {
        Err(DateParseError::MissingSeparator)
    } else {
        let d = trimmed(s.subrange(0, i));
        let t = trimmed(s.subrange(i + 1, s.len() as int));
        match parsed_time(t, "%H:%M:%S"@) {
            None => Err(DateParseError::InvalidTime),
            Some((h, mi, se)) => match resolved_day(d, now) {
                Ok((y, m, dd)) => Ok(
                    WallClock { year: y, month: m, day: dd, hour: h, minute: mi, second: se },
                ),
                Err(e) => Err(e),
            },
        }
    }
}

/// Whether `s` is a non-empty run of ASCII digits.
fn is_digit_run(s: &str) -> (r: bool)
    ensures
        r == all_digits(s@),
{
    let n = s.unicode_len();
    if n == 0 {
        return false;
    }
    let mut i: usize = 0;
    while i < n
        invariant
            n == s@.len(),
            i <= n,
            forall|j: int| 0 <= j < i ==> crate::text::is_digit(s@[j]),
        decreases n - i,
    {
        let c = s.get_char(i);
        if !('0' <= c && c <= '9') {
            return false;
        }
        i = i + 1;
    }
    true
}

/// Reads `<day>. <month> <year>`.
fn parse_calendar_day(d: &str) -> (r: Result<(i32, u32, u32), DateParseError>)
    ensures
        r == calendar_day(d@),
{
    let n = d.unicode_len();
    let p = match find_char(d, '.') {
        Some(p) => p,
        None => return Err(DateParseError::UnknownDateFormat),
    };
    if p + 1 >= n || d.get_char(p + 1) != ' ' {
        return Err(DateParseError::UnknownDateFormat);
    }
    let day = d.substring_char(0, p);
    let rest = d.substring_char(p + 2, n);
    let q = match find_char(rest, ' ') {
        Some(q) => q,
        None => return Err(DateParseError::UnknownDateFormat),
    };
    if q == 0 {
        return Err(DateParseError::UnknownDateFormat);
    }
    let month = rest.substring_char(0, q);
    let year = rest.substring_char(q + 1, rest.unicode_len());
    if !is_digit_run(day) || !is_digit_run(year) {
        return Err(DateParseError::UnknownDateFormat);
    }
    let day_value = parse_decimal(day, 0xFFFF_FFFF);
    let year_value = parse_decimal(year, 0x7FFF_FFFF);
    if day_value.is_none() || year_value.is_none() {
        return Err(DateParseError::NumberOutOfRange);
    }
    let day_value = day_value.unwrap() as u32;
    let year_value = year_value.unwrap() as i32;
    match lookup_month(month) {
        None => Err(DateParseError::UnknownMonth),
        Some(m) => if civil_date_exists(year_value, m, day_value) {
            Ok((year_value, m, day_value))
        } else {
            Err(DateParseError::InvalidDate)
        },
    }
}

/// Resolves the day part of a date string against today's date.
fn resolve_day(d: &str, today: &WallClock) -> (r: Result<(i32, u32, u32), DateParseError>)
    requires
        today.wf(),
    ensures
        r == resolved_day(d@, *today),
{
    if same_text(d, "Gestern") || same_text(d, "Yesterday") {
        match day_before(today.year, today.month, today.day) {
            Some(x) => Ok(x),
            None => Err(DateParseError::DateOutOfRange),
        }
    } else if same_text(d, "Heute") || same_text(d, "Today") {
        Ok((today.year, today.month, today.day))
    } else if same_text(d, "Morgen") || same_text(d, "Tomorrow") {
        match day_after(today.year, today.month, today.day) {
            Some(x) => Ok(x),
            None => Err(DateParseError::DateOutOfRange),
        }
    } else {
        parse_calendar_day(d)
    }
}

/// Parses a date string as the portal writes it, `now` being the current
/// wall-clock time: a keyword day is moved from today's date, a calendar day
/// is read from the string, and the time of day comes after the comma.
pub fn parse_date(s: &str, now: &WallClock) -> (r: Result<WallClock, DateParseError>)
    requires
        now.wf(),
    ensures
        r == date_of(s@, *now),
        r matches Ok(t) ==> t.wf(),
{
    let n = s.unicode_len();
    let i = match find_char(s, ',') {
        Some(i) => i,
        None => return Err(DateParseError::MissingSeparator),
    };
    let d = trim(s.substring_char(0, i));
    let t = trim(s.substring_char(i + 1, n));
    match parse_time_of_day(t.as_str(), "%H:%M:%S") {
        None => Err(DateParseError::InvalidTime),
        Some((h, mi, se)) => match resolve_day(d.as_str(), now) {
            Ok((y, m, dd)) => Ok(WallClock { year: y, month: m, day: dd, hour: h, minute: mi, second: se }),
            Err(e) => Err(e),
        },
    }
}

/// Parses a date string as [`parse_date`] does, and refuses a wall-clock time
/// that the local time zone skips.
pub fn parse_local_date(s: &str, now: &WallClock) -> (r: Result<WallClock, DateParseError>)
    requires
        now.wf(),
    ensures
        date_of(s@, *now) is Err ==> r == date_of(s@, *now),
        date_of(s@, *now) matches Ok(t) ==> r == Ok::<WallClock, DateParseError>(t) || r
            == Err::<WallClock, DateParseError>(DateParseError::NonexistentLocalTime),
{
    let t = parse_date(s, now)?;
    if exists_in_local_zone(&t) {
        Ok(t)
    } else {
        Err(DateParseError::NonexistentLocalTime)
    }
}

} // verus!
