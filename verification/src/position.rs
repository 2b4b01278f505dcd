//! Positions as the fields of a sentence write them: degrees and decimal
//! minutes with a hemisphere, and offsets in minutes.

use crate::decimal::{decimal_of, parse_decimal, Decimal};
use crate::error::{invalid_with, ParseError};
use crate::text::{
    all_ascii, all_digits, ascii_len, digits_only, digits_value, field, field_or_empty, is_char,
    is_digit, lemma_digits_bound, parse_digits, push_text, substring, views,
};
use vstd::prelude::*;
use vstd::string::*;

verus! {

broadcast use vstd::string::group_string_axioms;

/// A position as degrees and decimal minutes, south and west negative.
#[derive(Clone, Copy, Debug, PartialEq, Eq)]
pub struct Coordinate {
    /// True for south or west.
    pub negative: bool,
    /// Whole degrees.
    pub degrees: u16,
    /// Minutes of arc within the degree.
    pub minutes: Decimal,
}

/// The number of digits that `s` has from `from` on before its first
/// character that is no digit.
pub open spec fn digit_run(s: Seq<char>, from: int) -> nat
    decreases s.len() - from,
{
    if 0 <= from < s.len() && is_digit(s[from]) {
        1 + digit_run(s, from + 1)
    } else {
        0
    }
}

/// Whether a text is laid out as a position with `d` digits of degrees:
/// `d + 2` digits, a point, and at least one digit.
pub open spec fn position_shaped(s: Seq<char>, d: int) -> bool {
    &&& s.len() >= d + 4
    &&& all_digits(s.subrange(0, d + 2))
    &&& s[d + 2] == '.'
    &&& is_digit(s[d + 3])
}

/// The digits of the minutes of a position text with `d` digits of
/// degrees: the two before the point and the run of digits after it.
pub open spec fn minute_digits(s: Seq<char>, d: int) -> Seq<char> {
    s.subrange(d, d + 2) + s.subrange(d + 3, d + 3 + digit_run(s, d + 3))
}

/// Whether a position text with `d` digits of degrees can be held: it is
/// shaped as one, with at most 255 digits after the point, and the digits
/// of its minutes are below 2 to the 64.
pub open spec fn position_valid(s: Seq<char>, d: int) -> bool {
    &&& position_shaped(s, d)
    &&& digit_run(s, d + 3) <= 255
    &&& digits_value(minute_digits(s, d)) <= u64::MAX
}

/// The position that a text with `d` digits of degrees writes, negative
/// where the hemisphere is `minus`.
pub open spec fn position_of(
    s: Seq<char>,
    d: int,
    hemisphere: Seq<char>,
    minus: char,
) -> Coordinate {
    Coordinate {
        negative: hemisphere == seq![minus],
        degrees: digits_value(s.subrange(0, d)) as u16,
        minutes: Decimal {
            negative: false,
            digits: digits_value(minute_digits(s, d)) as u64,
            scale: digit_run(s, d + 3) as u8,
        },
    }
}

/// The end of the run of digits of `s` from `from`.
fn digit_run_end(s: &str, from: usize) -> (end: usize)
    requires
        s.is_ascii(),
        from <= s@.len(),
    ensures
        end == from + digit_run(s@, from as int),
        end <= s@.len(),
{
    let n: usize = ascii_len(s);
    let mut i: usize = from;
    while i < n && is_digit_byte(s.get_ascii(i))
        invariant
            s.is_ascii(),
            n == s@.len(),
            from <= i <= n,
            digit_run(s@, from as int) == (i - from) + digit_run(s@, i as int),
        decreases n - i,
    {
        i += 1;
    }
    i
}

/// Whether a byte is a decimal digit.
fn is_digit_byte(b: u8) -> (r: bool)
    ensures
        r == (48 <= b <= 57),
{
    48 <= b && b <= 57
}

/// A run of digits is made of digits.
proof fn lemma_digit_run(s: Seq<char>, from: int)
    requires
        0 <= from <= s.len(),
    ensures
        from + digit_run(s, from) <= s.len(),
        all_digits(s.subrange(from, from + digit_run(s, from))),
    decreases s.len() - from,
{
    if from < s.len() && is_digit(s[from]) {
        lemma_digit_run(s, from + 1);
        let a = s.subrange(from, from + digit_run(s, from));
        let b = s.subrange(from + 1, from + 1 + digit_run(s, from + 1));
        assert forall|i: int| 0 <= i < a.len() implies is_digit(#[trigger] a[i]) by {
            if i > 0 {
                assert(a[i] == b[i - 1]);
            }
        }
    }
}

/// Reads a position of `d` digits of degrees, two of minutes, a point
/// and more digits of minutes. What follows the digits is passed over.
fn parse_position(s: &str, d: usize, hemisphere: &str, minus: char) -> (r: Option<Coordinate>)
    requires
        s.is_ascii(),
        hemisphere.is_ascii(),
        2 <= d <= 3,
    ensures
        r is Some <==> position_valid(s@, d as int),
        r is Some ==> r.unwrap() == position_of(s@, d as int, hemisphere@, minus),
{
    let n: usize = ascii_len(s);
    if n < d + 4 {
        return None;
    }
    if !digits_only(substring(s, 0, d + 2).as_str(), 0) {
        assert(s@.subrange(0, d + 2).subrange(0, d + 2) =~= s@.subrange(0, d + 2));
        return None;
    }
    assert(s@.subrange(0, d + 2).subrange(0, d + 2) =~= s@.subrange(0, d + 2));
    if s.get_ascii(d + 2) as char != '.' || !is_digit_byte(s.get_ascii(d + 3)) {
        return None;
    }
    let end: usize = digit_run_end(s, d + 3);
    if end - (d + 3) > 255 {
        return None;
    }
    let degrees_text: String = substring(s, 0, d);
    let mut minutes_text: String = substring(s, d, d + 2);
    push_text(&mut minutes_text, substring(s, d + 3, end).as_str());
    proof {
        lemma_digit_run(s@, d + 3);
        let head = s@.subrange(0, d + 2);
        let a = s@.subrange(d as int, d + 2);
        let b = s@.subrange(d + 3, end as int);
        assert forall|i: int| 0 <= i < degrees_text@.len() implies is_digit(
            #[trigger] degrees_text@[i],
        ) by {
            assert(degrees_text@[i] == head[i]);
        }
        assert forall|i: int| 0 <= i < minutes_text@.len() implies is_digit(
            #[trigger] minutes_text@[i],
        ) by {
            if i < 2 {
                assert(minutes_text@[i] == head[i + d]);
            } else {
                assert(minutes_text@[i] == b[i - 2]);
            }
        }
        crate::text::lemma_ascii_concat(a, b);
        assert(degrees_text@.subrange(0, d as int) =~= degrees_text@);
        assert(minutes_text@.subrange(0, minutes_text@.len() as int) =~= minutes_text@);
        lemma_digits_bound(degrees_text@);
    }
    let degrees: u64 = match parse_digits(degrees_text.as_str(), 0, 999) {
        Some(v) => v,
        None => {
            return None;
        },
    };
    let digits: u64 = match parse_digits(minutes_text.as_str(), 0, u64::MAX) {
        Some(v) => v,
        None => {
            return None;
        },
    };
    let negative: bool = is_char(hemisphere, minus);
    Some(
        Coordinate {
            negative,
            degrees: degrees as u16,
            minutes: Decimal { negative: false, digits, scale: (end - (d + 3)) as u8 },
        },
    )
}

/// The message of the error for a latitude that cannot be read.
pub open spec fn latitude_error_text(s: Seq<char>) -> Seq<char> {
    "Failed to parse latitude (DDMM.MMM) from "@ + s
}

/// The message of the error for a longitude that cannot be read.
pub open spec fn longitude_error_text(s: Seq<char>) -> Seq<char> {
    "Failed to parse longitude (DDDMM.MMM) from "@ + s
}

/// Reads a latitude written as `DDMM.MMM`, with its hemisphere: `S` is
/// south, anything else north. Nothing where the text is empty.
pub fn parse_latitude_ddmm_mmm(
    lat_string: &str,
    hemisphere: &str,
) -> (r: Result<Option<Coordinate>, ParseError>)
    requires
        lat_string.is_ascii(),
        hemisphere.is_ascii(),
    ensures
        r is Ok <==> lat_string@.len() == 0 || position_valid(lat_string@, 2),
        r is Ok ==> r.unwrap() == (if lat_string@.len() == 0 {
            None
        } else {
            Some(position_of(lat_string@, 2, hemisphere@, 'S'))
        }),
        r is Err ==> r.unwrap_err() is InvalidSentence && r.unwrap_err().text()
            == latitude_error_text(lat_string@),
{
    if ascii_len(lat_string) == 0 {
        return Ok(None);
    }
    match parse_position(lat_string, 2, hemisphere, 'S') {
        Some(c) => Ok(Some(c)),
        None => {
            let mut msg: String = String::from_str("Failed to parse latitude (DDMM.MMM) from ");
            push_text(&mut msg, lat_string);
            Err(ParseError::InvalidSentence(msg))
        },
    }
}

/// Reads a longitude written as `DDDMM.MMM`, with its hemisphere: `W` is
/// west, anything else east. Nothing where the text is empty.
pub fn parse_longitude_dddmm_mmm(
    lon_string: &str,
    hemisphere: &str,
) -> (r: Result<Option<Coordinate>, ParseError>)
    requires
        lon_string.is_ascii(),
        hemisphere.is_ascii(),
    ensures
        r is Ok <==> lon_string@.len() == 0 || position_valid(lon_string@, 3),
        r is Ok ==> r.unwrap() == (if lon_string@.len() == 0 {
            None
        } else {
            Some(position_of(lon_string@, 3, hemisphere@, 'W'))
        }),
        r is Err ==> r.unwrap_err() is InvalidSentence && r.unwrap_err().text()
            == longitude_error_text(lon_string@),
{
    if ascii_len(lon_string) == 0 {
        return Ok(None);
    }
    match parse_position(lon_string, 3, hemisphere, 'W') {
        Some(c) => Ok(Some(c)),
        None => {
            let mut msg: String = String::from_str("Failed to parse longitude (DDDMM.MMM) from ");
            push_text(&mut msg, lon_string);
            Err(ParseError::InvalidSentence(msg))
        },
    }
}

/// Why an offset in minutes cannot be read, if it cannot.
pub open spec fn offset_error(
    s: Seq<char>,
    hemisphere: Seq<char>,
    plus: char,
    minus: char,
) -> Option<Seq<char>> {
    if s.len() == 0 {
        None
    } else if decimal_of(s) is None {
        Some("Failed to parse float: "@ + s)
    } else if hemisphere != seq![plus] && hemisphere != seq![minus] {
        Some("Bad hemispehre: "@ + hemisphere)
    } else {
        None
    }
}

/// The offset in minutes that a text writes, with the other sign where
/// the hemisphere is `minus`. Nothing where the text is empty.
pub open spec fn offset_of(s: Seq<char>, hemisphere: Seq<char>, minus: char) -> Option<Decimal> {
    if s.len() == 0 {
        None
    } else {
        let d = decimal_of(s).unwrap();
        Some(
            if hemisphere == seq![minus] {
                Decimal { negative: !d.negative, digits: d.digits, scale: d.scale }
            } else {
                d
            },
        )
    }
}

/// Reads an offset in minutes with its hemisphere.
fn parse_offset(s: &str, hemisphere: &str, plus: char, minus: char) -> (r: Result<
    Option<Decimal>,
    ParseError,
>)
    requires
        s.is_ascii(),
        hemisphere.is_ascii(),
        plus != minus,
    ensures
        r is Ok <==> offset_error(s@, hemisphere@, plus, minus) is None,
        r is Ok ==> r.unwrap() == offset_of(s@, hemisphere@, minus),
        r is Err ==> r.unwrap_err() is InvalidSentence && r.unwrap_err().text() == offset_error(
            s@,
            hemisphere@,
            plus,
            minus,
        ).unwrap(),
{
    if ascii_len(s) == 0 {
        return Ok(None);
    }
    let d: Decimal = match parse_decimal(s) {
        Some(d) => d,
        None => {
            return Err(invalid_with("Failed to parse float: ", s));
        },
    };
    proof {
        assert(seq![plus][0] != seq![minus][0]);
    }
    if is_char(hemisphere, plus) {
        Ok(Some(d))
    } else if is_char(hemisphere, minus) {
        Ok(Some(d.negated()))
    } else {
        Err(invalid_with("Bad hemispehre: ", hemisphere))
    }
}

/// Reads an offset of latitude in minutes, with its hemisphere, which
/// must be `N` or `S`. Nothing where the text is empty.
pub fn parse_latitude_m_m(
    lat_string: &str,
    hemisphere: &str,
) -> (r: Result<Option<Decimal>, ParseError>)
    requires
        lat_string.is_ascii(),
        hemisphere.is_ascii(),
    ensures
        r is Ok <==> offset_error(lat_string@, hemisphere@, 'N', 'S') is None,
        r is Ok ==> r.unwrap() == offset_of(lat_string@, hemisphere@, 'S'),
        r is Err ==> r.unwrap_err() is InvalidSentence && r.unwrap_err().text() == offset_error(
            lat_string@,
            hemisphere@,
            'N',
            'S',
        ).unwrap(),
{
    parse_offset(lat_string, hemisphere, 'N', 'S')
}

/// Reads an offset of longitude in minutes, with its hemisphere, which
/// must be `E` or `W`. Nothing where the text is empty.
pub fn parse_longitude_m_m(
    lon_string: &str,
    hemisphere: &str,
) -> (r: Result<Option<Decimal>, ParseError>)
    requires
        lon_string.is_ascii(),
        hemisphere.is_ascii(),
    ensures
        r is Ok <==> offset_error(lon_string@, hemisphere@, 'E', 'W') is None,
        r is Ok ==> r.unwrap() == offset_of(lon_string@, hemisphere@, 'W'),
        r is Err ==> r.unwrap_err() is InvalidSentence && r.unwrap_err().text() == offset_error(
            lon_string@,
            hemisphere@,
            'E',
            'W',
        ).unwrap(),
{
    parse_offset(lon_string, hemisphere, 'E', 'W')
}

/// Whether the latitude in field `num` is empty or can be read.
pub open spec fn latitude_field_valid(fields: Seq<Seq<char>>, num: int) -> bool {
    let s = field_or_empty(fields, num);
    s.len() == 0 || position_valid(s, 2)
}

/// The latitude in field `num`, with its hemisphere in the next field.
pub open spec fn latitude_field(fields: Seq<Seq<char>>, num: int) -> Option<Coordinate> {
    let s = field_or_empty(fields, num);
    if s.len() == 0 {
        None
    } else {
        Some(position_of(s, 2, field_or_empty(fields, num + 1), 'S'))
    }
}

/// Whether the longitude in field `num` is empty or can be read.
pub open spec fn longitude_field_valid(fields: Seq<Seq<char>>, num: int) -> bool {
    let s = field_or_empty(fields, num);
    s.len() == 0 || position_valid(s, 3)
}

/// The longitude in field `num`, with its hemisphere in the next field.
pub open spec fn longitude_field(fields: Seq<Seq<char>>, num: int) -> Option<Coordinate> {
    let s = field_or_empty(fields, num);
    if s.len() == 0 {
        None
    } else {
        Some(position_of(s, 3, field_or_empty(fields, num + 1), 'W'))
    }
}

/// Reads the latitude in field `num`, with its hemisphere in the next
/// field.
pub fn pick_latitude_field(
    fields: &Vec<String>,
    num: usize,
) -> (r: Result<Option<Coordinate>, ParseError>)
    requires
        all_ascii(fields@),
        num < usize::MAX,
    ensures
        r is Ok <==> latitude_field_valid(views(fields@), num as int),
        r is Ok ==> r.unwrap() == latitude_field(views(fields@), num as int),
        r is Err ==> r.unwrap_err() is InvalidSentence && r.unwrap_err().text()
            == latitude_error_text(field_or_empty(views(fields@), num as int)),
{
    parse_latitude_ddmm_mmm(field(fields, num), field(fields, num + 1))
}

/// Reads the longitude in field `num`, with its hemisphere in the next
/// field.
pub fn pick_longitude_field(
    fields: &Vec<String>,
    num: usize,
) -> (r: Result<Option<Coordinate>, ParseError>)
    requires
        all_ascii(fields@),
        num < usize::MAX,
    ensures
        r is Ok <==> longitude_field_valid(views(fields@), num as int),
        r is Ok ==> r.unwrap() == longitude_field(views(fields@), num as int),
        r is Err ==> r.unwrap_err() is InvalidSentence && r.unwrap_err().text()
            == longitude_error_text(field_or_empty(views(fields@), num as int)),
{
    parse_longitude_dddmm_mmm(field(fields, num), field(fields, num + 1))
}

} // verus!
