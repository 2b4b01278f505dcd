//! Calendar dates and times of day in UTC, held as plain numbers. Whether
//! a date exists, and how many days lie between two dates, is asked of
//! `chrono`.

use chrono::{Datelike, FixedOffset, NaiveDate, NaiveTime};
use crate::error::ParseError;
use crate::text::{
    decimal_chars, push_decimal, push_signed_decimal, push_text, signed_decimal_chars,
};
use vstd::prelude::*;
use vstd::string::*;

verus! {

/// A date and a time of day in UTC.
#[derive(Clone, Copy, Debug, PartialEq, Eq)]
pub struct UtcDateTime {
    pub year: i32,
    pub month: u32,
    pub day: u32,
    pub hour: u32,
    pub minute: u32,
    pub second: u32,
    /// Nanoseconds; 1,000,000,000 and above within a leap second.
    pub nanosecond: u32,
}

/// A fixed offset from UTC, in seconds east of Greenwich.
#[derive(Clone, Copy, Debug, PartialEq, Eq)]
pub struct UtcOffset {
    pub seconds: i32,
}

/// Whether year `y` has a 29th of February in the proleptic Gregorian
/// calendar.
pub open spec fn is_leap_year(y: int) -> bool {
    y % 4 == 0 && (y % 100 != 0 || y % 400 == 0)
}

/// The number of days of month `m` of year `y`.
pub open spec fn days_in_month(y: int, m: int) -> int {
    if m == 2 {
        if is_leap_year(y) {
            29
        } else {
            28
        }
    } else if m == 4 || m == 6 || m == 9 || m == 11 {
        30
    } else {
        31
    }
}

/// Whether the calendar has the day `d` of month `m` of year `y`, within
/// the years that `chrono` can hold.
pub open spec fn date_exists(y: int, m: int, d: int) -> bool {
    &&& -262143 <= y <= 262142
    &&& 1 <= m <= 12
    &&& 1 <= d <= days_in_month(y, m)
}

/// Whether a day has the time `h:mi:s` and `n` nanoseconds. The last
/// second of a minute may be followed by a leap second, written as a
/// billion nanoseconds or more.
pub open spec fn time_exists(h: int, mi: int, s: int, n: int) -> bool {
    &&& 0 <= h < 24
    &&& 0 <= mi < 60
    &&& 0 <= s < 60
    &&& 0 <= n < 2_000_000_000
    &&& (n < 1_000_000_000 || s == 59)
}

/// The number of the day `y-m-d`, counted from the 1st of January of the
/// year 1, which is day 1.
pub uninterp spec fn days_from_ce(y: int, m: int, d: int) -> int;

impl UtcDateTime {
    /// The date exists and the time of day does.
    pub open spec fn wf(self) -> bool {
        &&& date_exists(self.year as int, self.month as int, self.day as int)
        &&& time_exists(
            self.hour as int,
            self.minute as int,
            self.second as int,
            self.nanosecond as int,
        )
    }

    /// Whole seconds from the start of day 0 to this time.
    pub open spec fn instant(self) -> int {
        days_from_ce(self.year as int, self.month as int, self.day as int) * 86400 + self.hour
            * 3600 + self.minute * 60 + self.second
    }

    /// Whole seconds from the start of day 0 to this time.
    pub fn seconds(&self) -> (r: i64)
        requires
            self.wf(),
        ensures
            r == self.instant(),
            -0x8000_0000 * 86400 <= r < 0x8000_0000 * 86400 + 86400,
    {
        let days: i64 = day_number(self.year, self.month, self.day) as i64;
        days * 86400 + (self.hour as i64) * 3600 + (self.minute as i64) * 60 + (self.second as i64)
    }
}

/// `NaiveDate::from_ymd_opt`: whether it finds the date. It does for the
/// days that the calendar has, in the years -262143 to 262142.
#[verifier::external_body]
fn date_is_valid(year: i32, month: u32, day: u32) -> (ok: bool)
    ensures
        ok == date_exists(year as int, month as int, day as int),
{
    NaiveDate::from_ymd_opt(year, month, day).is_some()
}

/// `NaiveTime::from_hms_nano_opt`: whether it finds the time of day.
#[verifier::external_body]
fn time_is_valid(hour: u32, min: u32, sec: u32, nano: u32) -> (ok: bool)
    ensures
        ok == time_exists(hour as int, min as int, sec as int, nano as int),
{
    NaiveTime::from_hms_nano_opt(hour, min, sec, nano).is_some()
}

/// `Datelike::num_days_from_ce` of a `NaiveDate`: the number of the day
/// in the proleptic Gregorian calendar, which `days_from_ce` names.
#[verifier::external_body]
fn day_number(year: i32, month: u32, day: u32) -> (n: i32)
    requires
        date_exists(year as int, month as int, day as int),
    ensures
        n == days_from_ce(year as int, month as int, day as int),
{
    NaiveDate::from_ymd_opt(year, month, day).unwrap().num_days_from_ce()
}

/// `FixedOffset::east_opt`: whether it accepts the offset. It does within
/// a day, both ends left out.
#[verifier::external_body]
fn offset_is_valid(secs: i32) -> (ok: bool)
    ensures
        ok == (-86_400 < secs < 86_400),
{
    FixedOffset::east_opt(secs).is_some()
}

/// The message of the error for a date or time that does not exist.
pub open spec fn utc_error_text(y: int, m: nat, d: nat, h: nat, mi: nat, s: nat) -> Seq<char> {
    "Failed to parse Utc Date from y:"@ + signed_decimal_chars(y) + " m:"@ + decimal_chars(m)
        + " d:"@ + decimal_chars(d) + " h:"@ + decimal_chars(h) + " m:"@ + decimal_chars(mi)
        + " s:"@ + decimal_chars(s)
}

/// Makes a UTC date and time of the given numbers, where the calendar has
/// that day and the day that time.
pub fn parse_valid_utc(
    year: i32,
    month: u32,
    day: u32,
    hour: u32,
    min: u32,
    sec: u32,
    nano: u32,
) -> (r: Result<UtcDateTime, ParseError>)
    ensures
        r is Ok <==> date_exists(year as int, month as int, day as int) && time_exists(
            hour as int,
            min as int,
            sec as int,
            nano as int,
        ),
        r is Ok ==> r.unwrap() == (UtcDateTime {
            year,
            month,
            day,
            hour,
            minute: min,
            second: sec,
            nanosecond: nano,
        }) && r.unwrap().wf(),
        r is Err ==> r.unwrap_err() is InvalidSentence && r.unwrap_err().text() == utc_error_text(
            year as int,
            month as nat,
            day as nat,
            hour as nat,
            min as nat,
            sec as nat,
        ),
{
    if date_is_valid(year, month, day) && time_is_valid(hour, min, sec, nano) {
        Ok(UtcDateTime { year, month, day, hour, minute: min, second: sec, nanosecond: nano })
    } else {
        let mut msg: String = String::from_str("Failed to parse Utc Date from y:");
        push_signed_decimal(&mut msg, year as i64);
        push_text(&mut msg, " m:");
        push_decimal(&mut msg, month as u64);
        push_text(&mut msg, " d:");
        push_decimal(&mut msg, day as u64);
        push_text(&mut msg, " h:");
        push_decimal(&mut msg, hour as u64);
        push_text(&mut msg, " m:");
        push_decimal(&mut msg, min as u64);
        push_text(&mut msg, " s:");
        push_decimal(&mut msg, sec as u64);
        Err(ParseError::InvalidSentence(msg))
    }
}

/// Makes a UTC date and time of the given numbers, at a whole second.
pub fn parse_ymdhs(
    year: i32,
    month: u32,
    day: u32,
    hour: u32,
    min: u32,
    sec: u32,
) -> (r: Result<UtcDateTime, ParseError>)
    ensures
        r is Ok <==> date_exists(year as int, month as int, day as int) && time_exists(
            hour as int,
            min as int,
            sec as int,
            0,
        ),
        r is Ok ==> r.unwrap() == (UtcDateTime {
            year,
            month,
            day,
            hour,
            minute: min,
            second: sec,
            nanosecond: 0,
        }) && r.unwrap().wf(),
        r is Err ==> r.unwrap_err() is InvalidSentence && r.unwrap_err().text() == utc_error_text(
            year as int,
            month as nat,
            day as nat,
            hour as nat,
            min as nat,
            sec as nat,
        ),
{
    parse_valid_utc(year, month, day, hour, min, sec, 0)
}

/// Makes an offset from UTC of a number of seconds, where that is less
/// than a day either way.
pub fn valid_offset(seconds: i32) -> (r: Option<UtcOffset>)
    ensures
        r == (if -86_400 < seconds < 86_400 {
            Some(UtcOffset { seconds })
        } else {
            None
        }),
{
    if offset_is_valid(seconds) {
        Some(UtcOffset { seconds })
    } else {
        None
    }
}

/// Whether the instant of `now_seconds` and `now_nanos`, less 180 days,
/// is at or before the instant of `then_seconds` and `then_nanos`.
pub open spec fn at_most_180_days_before(
    now_seconds: int,
    now_nanos: int,
    then_seconds: int,
    then_nanos: int,
) -> bool {
    let limit = now_seconds - 180 * 86400;
    limit < then_seconds || (limit == then_seconds && now_nanos <= then_nanos)
}

/// Whether one instant, less 180 days, is at or before another. Each
/// instant is given in whole seconds and nanoseconds.
pub fn is_at_most_180_days_before(
    now_seconds: i64,
    now_nanos: u32,
    then_seconds: i64,
    then_nanos: u32,
) -> (r: bool)
    requires
        now_seconds - 180 * 86400 >= i64::MIN,
    ensures
        r == at_most_180_days_before(
            now_seconds as int,
            now_nanos as int,
            then_seconds as int,
            then_nanos as int,
        ),
{
    let limit: i64 = now_seconds - 180 * 86400;
    limit < then_seconds || (limit == then_seconds && now_nanos <= then_nanos)
}

/// Whether `now` less 180 days is at or before `then`.
pub open spec fn within_180_days(now: UtcDateTime, then: UtcDateTime) -> bool {
    at_most_180_days_before(
        now.instant(),
        now.nanosecond as int,
        then.instant(),
        then.nanosecond as int,
    )
}

/// Whether `now` less 180 days is at or before `then`.
pub fn is_within_180_days(now: &UtcDateTime, then: &UtcDateTime) -> (r: bool)
    requires
        now.wf(),
        then.wf(),
    ensures
        r == within_180_days(*now, *then),
{
    is_at_most_180_days_before(now.seconds(), now.nanosecond, then.seconds(), then.nanosecond)
}

} // verus!
