//! Times, dates and time zones as the fields of a sentence write them.

use crate::datetime::{
    date_exists, parse_valid_utc, time_exists, utc_error_text, valid_offset, UtcDateTime, UtcOffset,
};
use crate::decimal::{decimal_of, parse_decimal, Decimal};
use crate::error::{invalid, invalid_with, ParseError};
use crate::text::{
    all_ascii, ascii, ascii_len, field, field_or_empty, int_error_text, lemma_digits_bound,
    push_signed_decimal, push_text, read_i32, read_u32, signed_decimal_chars, signed_i32, substring,
    unsigned_up_to, views,
};
use vstd::prelude::*;
use vstd::string::*;

verus! {

broadcast use vstd::string::group_string_axioms;

/// The two characters of `s` from `i`, or the empty text where `s` does
/// not reach that far.
pub open spec fn two_chars(s: Seq<char>, i: int) -> Seq<char> {
    if 0 <= i && i + 2 <= s.len() {
        s.subrange(i, i + 2)
    } else {
        Seq::empty()
    }
}

/// Takes the two characters of `s` from `i`.
pub fn pick_s2(s: &str, i: usize) -> (r: String)
    requires
        s.is_ascii(),
    ensures
        r@ == two_chars(s@, i as int),
        ascii(r@),
{
    let n: usize = ascii_len(s);
    if n >= 2 && i <= n - 2 {
        substring(s, i, i + 2)
    } else {
        substring(s, 0, 0)
    }
}

/// A signed number of at most two characters is below 1000 either way.
proof fn lemma_two_chars_bound(s: Seq<char>)
    requires
        s.len() <= 2,
    ensures
        signed_i32(s) is Some ==> -999 <= signed_i32(s).unwrap() <= 999,
{
    if signed_i32(s) is Some {
        if s.len() > 0 && (s[0] == '-' || s[0] == '+') {
            lemma_digits_bound(s.subrange(1, s.len() as int));
        } else {
            lemma_digits_bound(s);
        }
    }
}

/// The number that the two characters of `s` from `i` write.
pub open spec fn two_digit_value(s: Seq<char>, i: int) -> Option<nat> {
    unsigned_up_to(two_chars(s, i), 0xffff_ffff)
}

/// Whether the three pairs of characters of a text of six each write a
/// number.
pub open spec fn triple_valid(s: Seq<char>) -> bool {
    &&& two_digit_value(s, 0) is Some
    &&& two_digit_value(s, 2) is Some
    &&& two_digit_value(s, 4) is Some
}

/// The three numbers that the three pairs of characters of a text write.
pub open spec fn triple_of(s: Seq<char>) -> (u32, u32, u32) {
    (
        two_digit_value(s, 0).unwrap() as u32,
        two_digit_value(s, 2).unwrap() as u32,
        two_digit_value(s, 4).unwrap() as u32,
    )
}

/// The message of the error for the first pair of characters of a text
/// that writes no number.
pub open spec fn triple_error_text(s: Seq<char>) -> Seq<char> {
    if two_digit_value(s, 0) is None {
        int_error_text(two_chars(s, 0), false)
    } else if two_digit_value(s, 2) is None {
        int_error_text(two_chars(s, 2), false)
    } else {
        int_error_text(two_chars(s, 4), false)
    }
}

/// Reads hour, minute and second from a text written as `HHMMSS`.
pub fn parse_time(hhmmss: &str) -> (r: Result<(u32, u32, u32), ParseError>)
    requires
        hhmmss.is_ascii(),
    ensures
        r is Ok <==> triple_valid(hhmmss@),
        r is Ok ==> r.unwrap() == triple_of(hhmmss@),
        r is Err ==> r.unwrap_err() is InvalidSentence && r.unwrap_err().text()
            == triple_error_text(hhmmss@),
{
    let hour: u32 = match read_u32(pick_s2(hhmmss, 0).as_str()) {
        Ok(v) => v,
        Err(e) => {
            return Err(e);
        },
    };
    let minute: u32 = match read_u32(pick_s2(hhmmss, 2).as_str()) {
        Ok(v) => v,
        Err(e) => {
            return Err(e);
        },
    };
    let second: u32 = match read_u32(pick_s2(hhmmss, 4).as_str()) {
        Ok(v) => v,
        Err(e) => {
            return Err(e);
        },
    };
    Ok((hour, minute, second))
}

/// Whether the three pairs of characters of a date written as `DDMMYY`
/// each write a number, the year with a sign if it has one.
pub open spec fn date_triple_valid(s: Seq<char>) -> bool {
    &&& two_digit_value(s, 0) is Some
    &&& two_digit_value(s, 2) is Some
    &&& signed_i32(two_chars(s, 4)) is Some
}

/// Day, month and year of a date written as `DDMMYY`.
pub open spec fn date_triple_of(s: Seq<char>) -> (u32, u32, i32) {
    (
        two_digit_value(s, 0).unwrap() as u32,
        two_digit_value(s, 2).unwrap() as u32,
        signed_i32(two_chars(s, 4)).unwrap() as i32,
    )
}

/// The message of the error for the first pair of characters of a date
/// that writes no number.
pub open spec fn date_triple_error_text(s: Seq<char>) -> Seq<char> {
    if two_digit_value(s, 0) is None {
        int_error_text(two_chars(s, 0), false)
    } else if two_digit_value(s, 2) is None {
        int_error_text(two_chars(s, 2), false)
    } else {
        int_error_text(two_chars(s, 4), true)
    }
}

/// Reads day, month and year from a text written as `DDMMYY`.
pub fn parse_date(yymmdd: &str) -> (r: Result<(u32, u32, i32), ParseError>)
    requires
        yymmdd.is_ascii(),
    ensures
        r is Ok <==> date_triple_valid(yymmdd@),
        r is Ok ==> r.unwrap() == date_triple_of(yymmdd@),
        r is Err ==> r.unwrap_err() is InvalidSentence && r.unwrap_err().text()
            == date_triple_error_text(yymmdd@),
{
    let day: u32 = match read_u32(pick_s2(yymmdd, 0).as_str()) {
        Ok(v) => v,
        Err(e) => {
            return Err(e);
        },
    };
    let month: u32 = match read_u32(pick_s2(yymmdd, 2).as_str()) {
        Ok(v) => v,
        Err(e) => {
            return Err(e);
        },
    };
    let year: i32 = match read_i32(pick_s2(yymmdd, 4).as_str()) {
        Ok(v) => v,
        Err(e) => {
            return Err(e);
        },
    };
    Ok((day, month, year))
}

/// Ten to the `k`.
pub open spec fn pow10(k: nat) -> nat
    decreases k,
{
    if k == 0 {
        1
    } else {
        10 * pow10((k - 1) as nat)
    }
}

/// `n` where it fits in 32 bits, else the greatest number that does.
pub open spec fn saturated(n: int) -> u32 {
    if n > 0xffff_ffff {
        0xffff_ffffu32
    } else {
        n as u32
    }
}

/// The nanoseconds that a fraction of a second is, rounded to the
/// nearest, a half upwards: none for a negative fraction, and at most
/// what 32 bits hold.
pub open spec fn nanos_of(d: Decimal) -> u32 {
    if d.negative {
        0
    } else if d.scale <= 9 {
        saturated(d.digits * pow10((9 - d.scale) as nat))
    } else if d.scale - 9 > 19 {
        0
    } else {
        let unit = pow10((d.scale - 9) as nat);
        saturated(
            if 2 * (d.digits as int % unit as int) >= unit {
                d.digits as int / unit as int + 1
            } else {
                d.digits as int / unit as int
            },
        )
    }
}

/// Ten to the `k`, for `k` up to 19.
fn power_of_ten(k: u8) -> (r: u64)
    requires
        k <= 19,
    ensures
        r == pow10(k as nat),
        1 <= r <= 10_000_000_000_000_000_000,
{
    let mut r: u64 = 1;
    let mut i: u8 = 0;
    proof {
        reveal_with_fuel(pow10, 20);
        assert(pow10(19) == 10_000_000_000_000_000_000);
    }
    while i < k
        invariant
            i <= k <= 19,
            r == pow10(i as nat),
            1 <= r,
            r * pow10((19 - i) as nat) == 10_000_000_000_000_000_000,
        decreases k - i,
    {
        proof {
            let rest = pow10((19 - i - 1) as nat);
            assert(pow10((19 - i) as nat) == 10 * rest);
            assert(r * (10 * rest) == (r * 10) * rest) by (nonlinear_arith);
            assert(rest >= 1) by {
                lemma_pow10_positive((19 - i - 1) as nat);
            }
            assert((r * 10) * rest >= r * 10) by (nonlinear_arith)
                requires
                    rest >= 1,
                    r >= 1,
            ;
        }
        r = r * 10;
        i += 1;
    }
    proof {
        lemma_pow10_positive((19 - k) as nat);
        let rest = pow10((19 - k) as nat);
        assert(r * rest >= r) by (nonlinear_arith)
            requires
                rest >= 1,
                r >= 1,
        ;
    }
    r
}

/// A power of ten is at least 1.
proof fn lemma_pow10_positive(k: nat)
    ensures
        pow10(k) >= 1,
    decreases k,
{
    if k > 0 {
        lemma_pow10_positive((k - 1) as nat);
    }
}

/// The nanoseconds that a fraction of a second is.
pub fn nanoseconds(d: Decimal) -> (r: u32)
    ensures
        r == nanos_of(d),
{
    if d.negative {
        return 0;
    }
    if d.scale <= 9 {
        let unit: u64 = power_of_ten(9 - d.scale);
        proof {
            lemma_pow10_nine((9 - d.scale) as nat);
        }
        if d.digits > 0xffff_ffff {
            assert(d.digits * unit >= d.digits) by (nonlinear_arith)
                requires
                    unit >= 1,
            ;
            return 0xffff_ffff;
        }
        assert(d.digits * unit <= 0xffff_ffff * 1_000_000_000) by (nonlinear_arith)
            requires
                d.digits <= 0xffff_ffff,
                unit <= 1_000_000_000,
        ;
        let n: u64 = d.digits * unit;
        if n > 0xffff_ffff {
            0xffff_ffff
        } else {
            n as u32
        }
    } else if d.scale - 9 > 19 {
        0
    } else {
        let unit: u64 = power_of_ten(d.scale - 9);
        let q: u64 = d.digits / unit;
        let rem: u64 = d.digits % unit;
        let up: bool = rem >= unit - rem;
        if q >= 0xffff_ffff {
            0xffff_ffff
        } else if up {
            (q + 1) as u32
        } else {
            q as u32
        }
    }
}

/// Ten to at most the ninth is at most a billion.
proof fn lemma_pow10_nine(k: nat)
    requires
        k <= 9,
    ensures
        pow10(k) <= 1_000_000_000,
{
    reveal_with_fuel(pow10, 10);
}

/// The part of a time text after its first six characters, where it has
/// any.
pub open spec fn fraction_text(s: Seq<char>) -> Seq<char> {
    if s.len() > 6 {
        s.subrange(6, s.len() as int)
    } else {
        Seq::empty()
    }
}

/// Whether a time written as `HHMMSS.SS` can be read: its three pairs
/// write numbers, and what follows them, if anything, is a decimal
/// number.
pub open spec fn time_with_fractions_valid(s: Seq<char>) -> bool {
    triple_valid(s) && (fraction_text(s).len() == 0 || decimal_of(fraction_text(s)) is Some)
}

/// Hour, minute, second and nanoseconds of a time written as
/// `HHMMSS.SS`.
pub open spec fn time_with_fractions_of(s: Seq<char>) -> (u32, u32, u32, u32) {
    (
        triple_of(s).0,
        triple_of(s).1,
        triple_of(s).2,
        if fraction_text(s).len() == 0 {
            0u32
        } else {
            nanos_of(decimal_of(fraction_text(s)).unwrap())
        },
    )
}

/// Reads hour, minute, second and nanoseconds from a text written as
/// `HHMMSS.SS`.
pub fn parse_time_with_fractions(hhmmss: &str) -> (r: Result<(u32, u32, u32, u32), ParseError>)
    requires
        hhmmss.is_ascii(),
    ensures
        r is Ok <==> time_with_fractions_valid(hhmmss@),
        r is Ok ==> r.unwrap() == time_with_fractions_of(hhmmss@),
        r is Err ==> r.unwrap_err() is InvalidSentence,
        r is Err && !triple_valid(hhmmss@) ==> r.unwrap_err().text() == triple_error_text(
            hhmmss@,
        ),
        r is Err && triple_valid(hhmmss@) ==> r.unwrap_err().text() == "invalid float literal"@,
{
    let (hour, minute, second): (u32, u32, u32) = match parse_time(hhmmss) {
        Ok(t) => t,
        Err(e) => {
            return Err(e);
        },
    };
    let n: usize = ascii_len(hhmmss);
    let nano: u32 = if n > 6 {
        match parse_decimal(substring(hhmmss, 6, n).as_str()) {
            Some(d) => nanoseconds(d),
            None => {
                return Err(crate::error::invalid("invalid float literal"));
            },
        }
    } else {
        0
    };
    Ok((hour, minute, second, nano))
}

/// The message of the error for a time that cannot be read.
pub open spec fn time_format_error_text(s: Seq<char>) -> Seq<char> {
    "Invalid time format: "@ + s
}

/// The message of the error for a date that cannot be read.
pub open spec fn date_format_error_text(s: Seq<char>) -> Seq<char> {
    "Invalid date format: "@ + s
}

/// The date and time that the numbers make, as far as the calendar has
/// them.
pub open spec fn utc_of(
    year: int,
    month: u32,
    day: u32,
    hour: u32,
    min: u32,
    sec: u32,
    nano: u32,
) -> Option<UtcDateTime> {
    if date_exists(year, month as int, day as int) && time_exists(
        hour as int,
        min as int,
        sec as int,
        nano as int,
    ) {
        Some(
            UtcDateTime {
                year: year as i32,
                month,
                day,
                hour,
                minute: min,
                second: sec,
                nanosecond: nano,
            },
        )
    } else {
        None
    }
}

/// The time `hhmmss` on the day of `now`, as far as it can be read and
/// exists.
pub open spec fn hhmmss_of(s: Seq<char>, now: UtcDateTime) -> Option<UtcDateTime> {
    if triple_valid(s) {
        utc_of(
            now.year as int,
            now.month,
            now.day,
            triple_of(s).0,
            triple_of(s).1,
            triple_of(s).2,
            0,
        )
    } else {
        None
    }
}

/// Reads a time written as `HHMMSS` and puts it on the day of `now`.
pub fn parse_hhmmss(hhmmss: &str, now: UtcDateTime) -> (r: Result<UtcDateTime, ParseError>)
    requires
        hhmmss.is_ascii(),
    ensures
        r.ok() == hhmmss_of(hhmmss@, now),
        r is Err ==> r.unwrap_err() is InvalidSentence,
        r is Err && !triple_valid(hhmmss@) ==> r.unwrap_err().text() == time_format_error_text(
            hhmmss@,
        ),
{
    let (hour, minute, second): (u32, u32, u32) = match parse_time(hhmmss) {
        Ok(t) => t,
        Err(_) => {
            return Err(invalid_with("Invalid time format: ", hhmmss));
        },
    };
    parse_valid_utc(now.year, now.month, now.day, hour, minute, second, 0)
}

/// The date `yymmdd` of this century with the time `hhmmss`, as far as
/// they can be read and exist.
pub open spec fn yymmdd_hhmmss_of(yymmdd: Seq<char>, hhmmss: Seq<char>) -> Option<UtcDateTime> {
    if date_triple_valid(yymmdd) && triple_valid(hhmmss) {
        utc_of(
            2000 + date_triple_of(yymmdd).2,
            date_triple_of(yymmdd).1,
            date_triple_of(yymmdd).0,
            triple_of(hhmmss).0,
            triple_of(hhmmss).1,
            triple_of(hhmmss).2,
            0,
        )
    } else {
        None
    }
}

/// Reads a date written as `DDMMYY`, taken to be of the century from
/// 2000, and a time written as `HHMMSS`.
pub fn parse_yymmdd_hhmmss(yymmdd: &str, hhmmss: &str) -> (r: Result<UtcDateTime, ParseError>)
    requires
        yymmdd.is_ascii(),
        hhmmss.is_ascii(),
    ensures
        r.ok() == yymmdd_hhmmss_of(yymmdd@, hhmmss@),
        r is Err ==> r.unwrap_err() is InvalidSentence,
        r is Err && !date_triple_valid(yymmdd@) ==> r.unwrap_err().text()
            == date_format_error_text(yymmdd@),
        r is Err && date_triple_valid(yymmdd@) && !triple_valid(hhmmss@) ==> r.unwrap_err().text()
            == time_format_error_text(hhmmss@),
{
    let (day, month, year): (u32, u32, i32) = match parse_date(yymmdd) {
        Ok(t) => t,
        Err(_) => {
            return Err(invalid_with("Invalid date format: ", yymmdd));
        },
    };
    let (hour, minute, second): (u32, u32, u32) = match parse_time(hhmmss) {
        Ok(t) => t,
        Err(_) => {
            return Err(invalid_with("Invalid time format: ", hhmmss));
        },
    };
    proof {
        lemma_two_chars_bound(two_chars(yymmdd@, 4));
    }
    parse_valid_utc(2000 + year, month, day, hour, minute, second, 0)
}

/// The time `hhmmss`, with its fraction, on the day of `date`, as far as
/// it can be read and exists.
pub open spec fn hhmmss_ss_of(s: Seq<char>, date: UtcDateTime) -> Option<UtcDateTime> {
    if time_with_fractions_valid(s) {
        utc_of(
            date.year as int,
            date.month,
            date.day,
            time_with_fractions_of(s).0,
            time_with_fractions_of(s).1,
            time_with_fractions_of(s).2,
            time_with_fractions_of(s).3,
        )
    } else {
        None
    }
}

/// Reads a time written as `HHMMSS.SS` and puts it on the day of
/// `date`.
pub fn parse_hhmmss_ss(hhmmss: &str, date: UtcDateTime) -> (r: Result<UtcDateTime, ParseError>)
    requires
        hhmmss.is_ascii(),
    ensures
        r.ok() == hhmmss_ss_of(hhmmss@, date),
        r is Err ==> r.unwrap_err() is InvalidSentence,
        r is Err && !time_with_fractions_valid(hhmmss@) ==> r.unwrap_err().text()
            == time_format_error_text(hhmmss@),
{
    let (hour, minute, second, nano): (u32, u32, u32, u32) = match parse_time_with_fractions(
        hhmmss,
    ) {
        Ok(t) => t,
        Err(_) => {
            return Err(invalid_with("Invalid time format: ", hhmmss));
        },
    };
    parse_valid_utc(date.year, date.month, date.day, hour, minute, second, nano)
}

/// Whether the three fields of a date each write a number.
pub open spec fn date_fields_valid(
    fields: Seq<Seq<char>>,
    year_field: int,
    month_field: int,
    day_field: int,
) -> bool {
    &&& signed_i32(field_or_empty(fields, year_field)) is Some
    &&& unsigned_up_to(field_or_empty(fields, month_field), 0xffff_ffff) is Some
    &&& unsigned_up_to(field_or_empty(fields, day_field), 0xffff_ffff) is Some
}

/// The message of the error for the first of the three fields of a date
/// that writes no number.
pub open spec fn date_fields_error_text(
    fields: Seq<Seq<char>>,
    year_field: int,
    month_field: int,
    day_field: int,
) -> Seq<char> {
    if signed_i32(field_or_empty(fields, year_field)) is None {
        int_error_text(field_or_empty(fields, year_field), true)
    } else if unsigned_up_to(field_or_empty(fields, month_field), 0xffff_ffff) is None {
        int_error_text(field_or_empty(fields, month_field), false)
    } else {
        int_error_text(field_or_empty(fields, day_field), false)
    }
}

/// The date that three fields write, at the given time of day, as far as
/// it can be read and exists.
pub open spec fn date_of_fields(
    fields: Seq<Seq<char>>,
    year_field: int,
    month_field: int,
    day_field: int,
    hour: u32,
    minute: u32,
    second: u32,
    nanos: u32,
) -> Option<UtcDateTime> {
    if date_fields_valid(fields, year_field, month_field, day_field) {
        utc_of(
            signed_i32(field_or_empty(fields, year_field)).unwrap(),
            unsigned_up_to(field_or_empty(fields, month_field), 0xffff_ffff).unwrap() as u32,
            unsigned_up_to(field_or_empty(fields, day_field), 0xffff_ffff).unwrap() as u32,
            hour,
            minute,
            second,
            nanos,
        )
    } else {
        None
    }
}

/// Reads a date from three fields, and puts the given time of day on
/// it.
pub fn pick_date_with_fields(
    fields: &Vec<String>,
    year_field: usize,
    month_field: usize,
    day_field: usize,
    hour: u32,
    minute: u32,
    second: u32,
    nanos: u32,
) -> (r: Result<UtcDateTime, ParseError>)
    requires
        all_ascii(fields@),
    ensures
        r.ok() == date_of_fields(
            views(fields@),
            year_field as int,
            month_field as int,
            day_field as int,
            hour,
            minute,
            second,
            nanos,
        ),
        r is Err ==> r.unwrap_err() is InvalidSentence,
        r is Err && !date_fields_valid(
            views(fields@),
            year_field as int,
            month_field as int,
            day_field as int,
        ) ==> r.unwrap_err().text() == date_fields_error_text(
            views(fields@),
            year_field as int,
            month_field as int,
            day_field as int,
        ),
        r is Err && date_fields_valid(
            views(fields@),
            year_field as int,
            month_field as int,
            day_field as int,
        ) ==> r.unwrap_err().text() == utc_error_text(
            signed_i32(field_or_empty(views(fields@), year_field as int)).unwrap(),
            unsigned_up_to(field_or_empty(views(fields@), month_field as int), 0xffff_ffff).unwrap(
            ),
            unsigned_up_to(field_or_empty(views(fields@), day_field as int), 0xffff_ffff).unwrap(),
            hour as nat,
            minute as nat,
            second as nat,
        ),
{
    let year: i32 = match read_i32(field(fields, year_field)) {
        Ok(v) => v,
        Err(e) => {
            return Err(e);
        },
    };
    let month: u32 = match read_u32(field(fields, month_field)) {
        Ok(v) => v,
        Err(e) => {
            return Err(e);
        },
    };
    let day: u32 = match read_u32(field(fields, day_field)) {
        Ok(v) => v,
        Err(e) => {
            return Err(e);
        },
    };
    parse_valid_utc(year, month, day, hour, minute, second, nanos)
}

/// The text of the minute field of a time zone: `0` where the sentence
/// has no such field.
pub open spec fn zone_minute_text(fields: Seq<Seq<char>>, minute_field: int) -> Seq<char> {
    if 0 <= minute_field < fields.len() {
        fields[minute_field]
    } else {
        seq!['0']
    }
}

/// The seconds east of Greenwich that hours and minutes of a time zone
/// make; the minutes count the way the hours point.
pub open spec fn zone_seconds(hour: int, minute: int) -> int {
    hour * 3600 + (if hour > 0 {
        minute * 60
    } else if hour < 0 {
        -minute * 60
    } else {
        0
    })
}

/// The time zone that two fields write, as far as it can be read and is
/// less than a day from UTC.
pub open spec fn zone_of_fields(
    fields: Seq<Seq<char>>,
    hour_field: int,
    minute_field: int,
) -> Option<UtcOffset> {
    let hour = signed_i32(field_or_empty(fields, hour_field));
    let minute = signed_i32(zone_minute_text(fields, minute_field));
    if hour is Some && minute is Some && -86_400 < zone_seconds(hour.unwrap(), minute.unwrap())
        < 86_400 {
        Some(UtcOffset { seconds: zone_seconds(hour.unwrap(), minute.unwrap()) as i32 })
    } else {
        None
    }
}

/// The message of the error for a time zone that cannot be read or is a
/// day or more from UTC.
pub open spec fn zone_error_text(
    fields: Seq<Seq<char>>,
    hour_field: int,
    minute_field: int,
) -> Seq<char> {
    let hour = signed_i32(field_or_empty(fields, hour_field));
    let minute = signed_i32(zone_minute_text(fields, minute_field));
    if hour is None {
        int_error_text(field_or_empty(fields, hour_field), true)
    } else if minute is None {
        int_error_text(zone_minute_text(fields, minute_field), true)
    } else {
        "Time zone offset out of bounds: "@ + signed_decimal_chars(hour.unwrap()) + ":"@
            + signed_decimal_chars(minute.unwrap())
    }
}

/// Reads a time zone from a field of hours and a field of minutes.
pub fn pick_timezone_with_fields(
    fields: &Vec<String>,
    hour_field: usize,
    minute_field: usize,
) -> (r: Result<UtcOffset, ParseError>)
    requires
        all_ascii(fields@),
    ensures
        r.ok() == zone_of_fields(views(fields@), hour_field as int, minute_field as int),
        r is Err ==> r.unwrap_err() is InvalidSentence && r.unwrap_err().text() == zone_error_text(
            views(fields@),
            hour_field as int,
            minute_field as int,
        ),
{
    let hour: i32 = match read_i32(field(fields, hour_field)) {
        Ok(v) => v,
        Err(e) => {
            return Err(e);
        },
    };
    let zero: &str = "0";
    proof {
        reveal_strlit("0");
        assert(zero@ =~= seq!['0']);
    }
    let minute_text: &str = if minute_field < fields.len() {
        field(fields, minute_field)
    } else {
        zero
    };
    let minute: i32 = match read_i32(minute_text) {
        Ok(v) => v,
        Err(e) => {
            return Err(e);
        },
    };
    let minute_part: i64 = if hour > 0 {
        (minute as i64) * 60
    } else if hour < 0 {
        0 - (minute as i64) * 60
    } else {
        0
    };
    let total: i64 = (hour as i64) * 3600 + minute_part;
    let offset: Option<UtcOffset> = if -0x8000_0000 <= total && total <= 0x7fff_ffff {
        valid_offset(total as i32)
    } else {
        None
    };
    match offset {
        Some(offset) => Ok(offset),
        None => {
            let mut msg: String = String::from_str("Time zone offset out of bounds: ");
            push_signed_decimal(&mut msg, hour as i64);
            push_text(&mut msg, ":");
            push_signed_decimal(&mut msg, minute as i64);
            Err(ParseError::InvalidSentence(msg))
        },
    }
}

/// The reference time of the GNSS sentences that give a time without a
/// date: the first instant of the year 2000.
pub open spec fn gnss_epoch() -> UtcDateTime {
    UtcDateTime { year: 2000, month: 1, day: 1, hour: 0, minute: 0, second: 0, nanosecond: 0 }
}

/// The time in field `num`, on the first day of the year 2000; nothing
/// where it cannot be read.
pub open spec fn time_field(fields: Seq<Seq<char>>, num: int) -> Option<UtcDateTime> {
    hhmmss_of(field_or_empty(fields, num), gnss_epoch())
}

/// Reads the time in field `num` and puts it on the first day of the
/// year 2000.
pub fn pick_time_field(fields: &Vec<String>, num: usize) -> (r: Option<UtcDateTime>)
    requires
        all_ascii(fields@),
    ensures
        r == time_field(views(fields@), num as int),
{
    let now = UtcDateTime {
        year: 2000,
        month: 1,
        day: 1,
        hour: 0,
        minute: 0,
        second: 0,
        nanosecond: 0,
    };
    parse_hhmmss(field(fields, num), now).ok()
}

} // verus!
