//! Calendar dates as the inventory writes them and as the database takes
//! them.

use crate::text::{decimal, decimal_digits, i64_to_text, joined, u64_to_text};
use vstd::prelude::*;

verus! {

/// The year, month and day that `chrono` reads from `text` under `pattern`,
/// where it reads a date.
pub uninterp spec fn calendar_date(text: Seq<char>, pattern: Seq<char>) -> Option<(int, int, int)>;

/// `chrono::NaiveDate::parse_from_str`: the date that `text` writes under
/// `pattern`, as year, month and day; nothing where `text` does not match
/// the pattern or names no day of the calendar. The outcome depends on the
/// two texts alone.
#[verifier::external_body]
pub(crate) fn parse_date(text: &str, pattern: &str) -> (date: Option<(i32, u32, u32)>)
    ensures
        match date {
            Some((year, month, day)) => calendar_date(text@, pattern@) == Some(
                (year as int, month as int, day as int),
            ),
            None => calendar_date(text@, pattern@) is None,
        },
{
    chrono::NaiveDate::parse_from_str(text, pattern).ok().map(
        |d| (chrono::Datelike::year(&d), chrono::Datelike::month(&d), chrono::Datelike::day(&d)),
    )
}

/// A moment of the calendar and of the clock, in the offset in which it was
/// written. In a leap second the nanosecond is a thousand million or more.
#[derive(Debug, Clone, Copy, PartialEq, Eq)]
pub struct Moment {
    pub year: i32,
    pub month: u32,
    pub day: u32,
    pub hour: u32,
    pub minute: u32,
    pub second: u32,
    pub nanosecond: u32,
}

/// The moment that `chrono` reads from `text` in the form of RFC 3339, where
/// it reads one.
pub uninterp spec fn rfc3339_moment(text: Seq<char>) -> Option<Moment>;

/// `chrono::DateTime::parse_from_rfc3339`: the moment that `text` writes, by
/// the fields of its date and time in its own offset; nothing where `text`
/// is no RFC 3339 timestamp. The outcome depends on the text alone.
#[verifier::external_body]
pub(crate) fn parse_rfc3339(text: &str) -> (moment: Option<Moment>)
    ensures
        moment == rfc3339_moment(text@),
{
    chrono::DateTime::parse_from_rfc3339(text).ok().map(
        |m|
            Moment {
                year: chrono::Datelike::year(&m),
                month: chrono::Datelike::month(&m),
                day: chrono::Datelike::day(&m),
                hour: chrono::Timelike::hour(&m),
                minute: chrono::Timelike::minute(&m),
                second: chrono::Timelike::second(&m),
                nanosecond: chrono::Timelike::nanosecond(&m),
            },
    )
}

/// The second that is written for a moment: in a leap second, the one after
/// the second that the clock holds.
pub open spec fn written_second(moment: Moment) -> int {
    if moment.nanosecond >= 1_000_000_000 && moment.second < u32::MAX {
        moment.second + 1
    } else {
        moment.second as int
    }
}

/// A moment as the database takes it: the date, a space, and the time of
/// day with two digits each for hour, minute and second.
pub open spec fn database_moment(moment: Moment) -> Seq<char> {
    iso_date((moment.year as int, moment.month as int, moment.day as int)) + " "@ + two_digits(
        moment.hour as int,
    ) + ":"@ + two_digits(moment.minute as int) + ":"@ + two_digits(written_second(moment))
}

/// The moment of an RFC 3339 timestamp as the database takes it.
pub open spec fn database_time(text: Seq<char>) -> Option<Seq<char>> {
    match rfc3339_moment(text) {
        Some(moment) => Some(database_moment(moment)),
        None => None,
    }
}

/// Reads an RFC 3339 timestamp and writes it as the database takes it, in
/// the offset in which it was written.
pub fn parse_timestamp(text: &str) -> (written: Option<String>)
    ensures
        match database_time(text@) {
            Some(t) => written is Some && written->0@ == t,
            None => written is None,
        },
{
    match parse_rfc3339(text) {
        Some(moment) => {
            let second: u32 = if moment.nanosecond >= 1_000_000_000 && moment.second < u32::MAX {
                moment.second + 1
            } else {
                moment.second
            };
            let mut written = iso_date_text(moment.year, moment.month, moment.day);
            written.append(" ");
            written.append(two_digit_text(moment.hour).as_str());
            written.append(":");
            written.append(two_digit_text(moment.minute).as_str());
            written.append(":");
            written.append(two_digit_text(second).as_str());
            Some(written)
        },
        None => None,
    }
}

/// `n` in decimal, with a zero before it where it is below ten.
pub open spec fn two_digits(n: int) -> Seq<char> {
    if 0 <= n < 10 {
        "0"@ + decimal_digits(n as nat)
    } else {
        decimal(n)
    }
}

/// The year in decimal, with zeros before it up to four digits where it is
/// from 0 to 9999.
pub open spec fn year_digits(year: int) -> Seq<char> {
    if 0 <= year < 10 {
        "000"@ + decimal_digits(year as nat)
    } else if 10 <= year < 100 {
        "00"@ + decimal_digits(year as nat)
    } else if 100 <= year < 1000 {
        "0"@ + decimal_digits(year as nat)
    } else {
        decimal(year)
    }
}

/// A date as the database takes it: year, month and day, separated by
/// hyphens.
pub open spec fn iso_date(date: (int, int, int)) -> Seq<char> {
    year_digits(date.0) + "-"@ + two_digits(date.1) + "-"@ + two_digits(date.2)
}

/// The date that a text in the form month/day/year writes, as the database
/// takes it; nothing where the text writes no date.
pub open spec fn us_date(text: Seq<char>) -> Option<Seq<char>> {
    match calendar_date(text, "%m/%d/%Y"@) {
        Some(date) => Some(iso_date(date)),
        None => None,
    }
}

fn two_digit_text(n: u32) -> (t: String)
    ensures
        t@ == two_digits(n as int),
{
    if n < 10 {
        joined("0", u64_to_text(n as u64).as_str())
    } else {
        u64_to_text(n as u64)
    }
}

fn year_text(year: i32) -> (t: String)
    ensures
        t@ == year_digits(year as int),
{
    if 0 <= year && year < 10 {
        joined("000", u64_to_text(year as u64).as_str())
    } else if 10 <= year && year < 100 {
        joined("00", u64_to_text(year as u64).as_str())
    } else if 100 <= year && year < 1000 {
        joined("0", u64_to_text(year as u64).as_str())
    } else {
        i64_to_text(year as i64)
    }
}

fn iso_date_text(year: i32, month: u32, day: u32) -> (iso: String)
    ensures
        iso@ == iso_date((year as int, month as int, day as int)),
{
    let mut iso = year_text(year);
    iso.append("-");
    iso.append(two_digit_text(month).as_str());
    iso.append("-");
    iso.append(two_digit_text(day).as_str());
    iso
}

/// Reads a date written as month/day/year and writes it as the database
/// takes it.
pub fn parse_us_date(text: &str) -> (date: Option<String>)
    ensures
        match us_date(text@) {
            Some(iso) => date is Some && date->0@ == iso,
            None => date is None,
        },
{
    match parse_date(text, "%m/%d/%Y") {
        Some((year, month, day)) => Some(iso_date_text(year, month, day)),
        None => None,
    }
}

/// The date of an optional text.
pub open spec fn optional_us_date(text: Option<String>) -> Option<Seq<char>> {
    match text {
        Some(t) => us_date(t@),
        None => None,
    }
}

/// Reads the date of an optional text.
pub fn parse_optional_us_date(text: &Option<String>) -> (date: Option<String>)
    ensures
        match optional_us_date(*text) {
            Some(iso) => date is Some && date->0@ == iso,
            None => date is None,
        },
{
    match text {
        Some(t) => parse_us_date(t.as_str()),
        None => None,
    }
}

} // verus!
