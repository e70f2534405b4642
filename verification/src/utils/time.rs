//! Compact text forms of dates and times, as they appear in file names.
//!
//! The calendar and the printing are `chrono`'s. Each text is named by
//! what `chrono` prints for the given numbers in the given format; where
//! `chrono` refuses the numbers or the format there is no text.

use std::fmt::Write;
use vstd::prelude::*;

verus! {

/// The format of a date: year, month and day, without separators.
pub open spec fn date_format() -> Seq<char> {
    "%Y%m%d"@
}

/// The format of a date and a time of day: as [`date_format`], then `T`,
/// then hours, minutes and seconds, without separators.
pub open spec fn datetime_format() -> Seq<char> {
    "%Y%m%dT%H%M%S"@
}

/// The text that `chrono` prints for a calendar date in a format, `None`
/// where it has no such date or refuses the format.
pub uninterp spec fn chrono_date_text(year: i32, month: u32, day: u32, format: Seq<char>) -> Option<
    Seq<char>,
>;

/// The text that `chrono` prints for a calendar date and a time of day in
/// a format, `None` where it has no such date or time or refuses the
/// format.
pub uninterp spec fn chrono_datetime_text(
    year: i32,
    month: u32,
    day: u32,
    hour: u32,
    minutes: u32,
    seconds: u32,
    format: Seq<char>,
) -> Option<Seq<char>>;

/// The text that `chrono` prints in a format for the moment that lies
/// `secs` seconds and `nsecs` nanoseconds after the start of 1970 in UTC,
/// `None` where the moment is out of its range or it refuses the format.
pub uninterp spec fn chrono_timestamp_text(secs: i64, nsecs: u32, format: Seq<char>) -> Option<
    Seq<char>,
>;

/// `chrono::NaiveDate::from_ymd_opt`, printed with `format`. The contract
/// names the outcome: the same numbers and format give the same text, or
/// the same refusal.
#[verifier::external_body]
fn print_date(year: i32, month: u32, day: u32, format: &str) -> (r: Option<String>)
    ensures
        r is Some <==> chrono_date_text(year, month, day, format@) is Some,
        r is Some ==> Some(r->0@) == chrono_date_text(year, month, day, format@),
{
    let date = chrono::NaiveDate::from_ymd_opt(year, month, day)?;
    let mut text = String::new();
    match write!(text, "{}", date.format(format)) {
        Ok(()) => Some(text),
        Err(_) => None,
    }
}

/// `chrono::NaiveDate::from_ymd_opt` and `chrono::NaiveTime::from_hms_opt`,
/// joined and printed with `format`. The contract names the outcome.
#[verifier::external_body]
fn print_datetime(
    year: i32,
    month: u32,
    day: u32,
    hour: u32,
    minutes: u32,
    seconds: u32,
    format: &str,
) -> (r: Option<String>)
    ensures
        r is Some <==> chrono_datetime_text(year, month, day, hour, minutes, seconds, format@)
            is Some,
        r is Some ==> Some(r->0@) == chrono_datetime_text(
            year,
            month,
            day,
            hour,
            minutes,
            seconds,
            format@,
        ),
{
    let date = chrono::NaiveDate::from_ymd_opt(year, month, day)?;
    let time = chrono::NaiveTime::from_hms_opt(hour, minutes, seconds)?;
    let mut text = String::new();
    match write!(text, "{}", chrono::NaiveDateTime::new(date, time).format(format)) {
        Ok(()) => Some(text),
        Err(_) => None,
    }
}

/// `chrono::DateTime::from_timestamp`, printed with `format`. The contract
/// names the outcome.
#[verifier::external_body]
fn print_timestamp(secs: i64, nsecs: u32, format: &str) -> (r: Option<String>)
    ensures
        r is Some <==> chrono_timestamp_text(secs, nsecs, format@) is Some,
        r is Some ==> Some(r->0@) == chrono_timestamp_text(secs, nsecs, format@),
{
    let moment = chrono::DateTime::from_timestamp(secs, nsecs)?;
    let mut text = String::new();
    match write!(text, "{}", moment.naive_utc().format(format)) {
        Ok(()) => Some(text),
        Err(_) => None,
    }
}

/// The text of a calendar date and a time of day, in the format
/// [`datetime_format`].
pub fn datetime(year: i32, month: u32, day: u32, hour: u32, minutes: u32, seconds: u32) -> (r:
    String)
    requires
        chrono_datetime_text(year, month, day, hour, minutes, seconds, datetime_format()) is Some,
    ensures
        Some(r@) == chrono_datetime_text(
            year,
            month,
            day,
            hour,
            minutes,
            seconds,
            datetime_format(),
        ),
{
    match print_datetime(year, month, day, hour, minutes, seconds, "%Y%m%dT%H%M%S") {
        Some(text) => text,
        None => vstd::pervasive::unreached(),
    }
}

/// The text of a calendar date and a time of day, in the format
/// [`datetime_format`]; `None` where there is no such date or time.
pub fn try_datetime(
    year: i32,
    month: u32,
    day: u32,
    hour: u32,
    minutes: u32,
    seconds: u32,
) -> (r: Option<String>)
    ensures
        r is Some <==> chrono_datetime_text(
            year,
            month,
            day,
            hour,
            minutes,
            seconds,
            datetime_format(),
        ) is Some,
        r is Some ==> Some(r->0@) == chrono_datetime_text(
            year,
            month,
            day,
            hour,
            minutes,
            seconds,
            datetime_format(),
        ),
{
    match print_datetime(year, month, day, hour, minutes, seconds, "%Y%m%dT%H%M%S") {
        Some(_) => Some(datetime(year, month, day, hour, minutes, seconds)),
        None => None,
    }
}

/// The text of the moment given as seconds and nanoseconds since the
/// start of 1970, in the format [`datetime_format`].
pub fn datetime_from_ts(ts: (i64, u32)) -> (r: String)
    requires
        chrono_timestamp_text(ts.0, ts.1, datetime_format()) is Some,
    ensures
        Some(r@) == chrono_timestamp_text(ts.0, ts.1, datetime_format()),
{
    match print_timestamp(ts.0, ts.1, "%Y%m%dT%H%M%S") {
        Some(text) => text,
        None => vstd::pervasive::unreached(),
    }
}

/// The text of the moment given as seconds and nanoseconds since the
/// start of 1970, in the format [`datetime_format`]; `None` where the
/// moment is out of range.
pub fn try_datetime_from_ts(ts: (i64, u32)) -> (r: Option<String>)
    ensures
        r is Some <==> chrono_timestamp_text(ts.0, ts.1, datetime_format()) is Some,
        r is Some ==> Some(r->0@) == chrono_timestamp_text(ts.0, ts.1, datetime_format()),
{
    match print_timestamp(ts.0, ts.1, "%Y%m%dT%H%M%S") {
        Some(_) => Some(datetime_from_ts(ts)),
        None => None,
    }
}

/// The text of a calendar date, in the format [`date_format`].
pub fn date(year: i32, month: u32, day: u32) -> (r: String)
    requires
        chrono_date_text(year, month, day, date_format()) is Some,
    ensures
        Some(r@) == chrono_date_text(year, month, day, date_format()),
{
    match print_date(year, month, day, "%Y%m%d") {
        Some(text) => text,
        None => vstd::pervasive::unreached(),
    }
}

/// The text of a calendar date, in the format [`date_format`]; `None`
/// where there is no such date.
pub fn try_date(year: i32, month: u32, day: u32) -> (r: Option<String>)
    ensures
        r is Some <==> chrono_date_text(year, month, day, date_format()) is Some,
        r is Some ==> Some(r->0@) == chrono_date_text(year, month, day, date_format()),
{
    match print_date(year, month, day, "%Y%m%d") {
        Some(_) => Some(date(year, month, day)),
        None => None,
    }
}

/// The time between the stamp of an object and now, in nanoseconds;
/// negative where the stamp lies ahead.
pub fn lag_nanos(now: i64, timestamp: i64) -> (r: i128)
    ensures
        r == now - timestamp,
{
    let a: i128 = now as i128;
    let b: i128 = timestamp as i128;
    a - b
}

} // verus!
