//! Readers of the text fields of a sentence: whole numbers, decimal
//! numbers, hexadecimal numbers, texts and choices.

use crate::decimal::{decimal_of, parse_decimal, Decimal};
use crate::error::{invalid_with, ParseError};
use crate::text::{
    all_ascii, ascii_len, decimal_chars, field, field_or_empty, is_char, parse_bounded,
    push_decimal, push_text, text_view, unsigned_up_to, views,
};
use vstd::prelude::*;
use vstd::string::*;

verus! {

broadcast use vstd::string::group_string_axioms;

/// The message of the error for a number field that cannot be read.
pub open spec fn field_error_text(num: nat, s: Seq<char>) -> Seq<char> {
    "Failed to parse field "@ + decimal_chars(num) + ": "@ + s
}

/// The message of the error for a hexadecimal field that cannot be read.
pub open spec fn hex_field_error_text(num: nat, s: Seq<char>) -> Seq<char> {
    "Failed to parse hex field "@ + decimal_chars(num) + ": "@ + s
}

/// Whether field `num` is empty or missing, or a whole number up to
/// `max`.
pub open spec fn number_field_valid(fields: Seq<Seq<char>>, num: int, max: nat) -> bool {
    let s = field_or_empty(fields, num);
    s.len() == 0 || unsigned_up_to(s, max) is Some
}

/// The whole number in field `num`; nothing where the field is empty or
/// missing.
pub open spec fn number_field(fields: Seq<Seq<char>>, num: int, max: nat) -> Option<nat> {
    let s = field_or_empty(fields, num);
    if s.len() == 0 {
        None
    } else {
        unsigned_up_to(s, max)
    }
}

/// Reads field `num` as a whole number up to `max`; nothing where the
/// field is empty or missing.
pub fn pick_number_field(
    fields: &Vec<String>,
    num: usize,
    max: u64,
) -> (r: Result<Option<u64>, ParseError>)
    requires
        all_ascii(fields@),
    ensures
        r is Ok <==> number_field_valid(views(fields@), num as int, max as nat),
        r is Ok ==> r.unwrap().is_some() == number_field(
            views(fields@),
            num as int,
            max as nat,
        ).is_some(),
        r is Ok && r.unwrap().is_some() ==> r.unwrap().unwrap() == number_field(
            views(fields@),
            num as int,
            max as nat,
        ).unwrap(),
        r is Err ==> r.unwrap_err() is InvalidSentence && r.unwrap_err().text()
            == field_error_text(num as nat, field_or_empty(views(fields@), num as int)),
{
    let s: &str = field(fields, num);
    if ascii_len(s) == 0 {
        return Ok(None);
    }
    match parse_bounded(s, max) {
        Some(v) => Ok(Some(v)),
        None => {
            let mut msg: String = String::from_str("Failed to parse field ");
            push_decimal(&mut msg, num as u64);
            push_text(&mut msg, ": ");
            push_text(&mut msg, s);
            Err(ParseError::InvalidSentence(msg))
        },
    }
}

/// The number of 8 bits in field `num`.
pub open spec fn u8_field(fields: Seq<Seq<char>>, num: int) -> Option<u8> {
    match number_field(fields, num, 255) {
        Some(v) => Some(v as u8),
        None => None,
    }
}

/// The number of 16 bits in field `num`.
pub open spec fn u16_field(fields: Seq<Seq<char>>, num: int) -> Option<u16> {
    match number_field(fields, num, 65535) {
        Some(v) => Some(v as u16),
        None => None,
    }
}

/// The number of 32 bits in field `num`.
pub open spec fn u32_field(fields: Seq<Seq<char>>, num: int) -> Option<u32> {
    match number_field(fields, num, 0xffff_ffff) {
        Some(v) => Some(v as u32),
        None => None,
    }
}

/// Reads field `num` as a number of 8 bits.
pub fn pick_u8_field(fields: &Vec<String>, num: usize) -> (r: Result<Option<u8>, ParseError>)
    requires
        all_ascii(fields@),
    ensures
        r is Ok <==> number_field_valid(views(fields@), num as int, 255),
        r is Ok ==> r.unwrap() == u8_field(views(fields@), num as int),
        r is Err ==> r.unwrap_err() is InvalidSentence && r.unwrap_err().text()
            == field_error_text(num as nat, field_or_empty(views(fields@), num as int)),
{
    match pick_number_field(fields, num, 255) {
        Ok(Some(v)) => Ok(Some(v as u8)),
        Ok(None) => Ok(None),
        Err(e) => Err(e),
    }
}

/// Reads field `num` as a number of 16 bits.
pub fn pick_u16_field(fields: &Vec<String>, num: usize) -> (r: Result<Option<u16>, ParseError>)
    requires
        all_ascii(fields@),
    ensures
        r is Ok <==> number_field_valid(views(fields@), num as int, 65535),
        r is Ok ==> r.unwrap() == u16_field(views(fields@), num as int),
        r is Err ==> r.unwrap_err() is InvalidSentence && r.unwrap_err().text()
            == field_error_text(num as nat, field_or_empty(views(fields@), num as int)),
{
    match pick_number_field(fields, num, 65535) {
        Ok(Some(v)) => Ok(Some(v as u16)),
        Ok(None) => Ok(None),
        Err(e) => Err(e),
    }
}

/// Reads field `num` as a number of 32 bits.
pub fn pick_u32_field(fields: &Vec<String>, num: usize) -> (r: Result<Option<u32>, ParseError>)
    requires
        all_ascii(fields@),
    ensures
        r is Ok <==> number_field_valid(views(fields@), num as int, 0xffff_ffff),
        r is Ok ==> r.unwrap() == u32_field(views(fields@), num as int),
        r is Err ==> r.unwrap_err() is InvalidSentence && r.unwrap_err().text()
            == field_error_text(num as nat, field_or_empty(views(fields@), num as int)),
{
    match pick_number_field(fields, num, 0xffff_ffff) {
        Ok(Some(v)) => Ok(Some(v as u32)),
        Ok(None) => Ok(None),
        Err(e) => Err(e),
    }
}

/// Whether field `num` is empty or missing, or a decimal number that can
/// be held.
pub open spec fn decimal_field_valid(fields: Seq<Seq<char>>, num: int) -> bool {
    let s = field_or_empty(fields, num);
    s.len() == 0 || decimal_of(s) is Some
}

/// The decimal number in field `num`; nothing where the field is empty or
/// missing.
pub open spec fn decimal_field(fields: Seq<Seq<char>>, num: int) -> Option<Decimal> {
    let s = field_or_empty(fields, num);
    if s.len() == 0 {
        None
    } else {
        decimal_of(s)
    }
}

/// Reads field `num` as a decimal number; nothing where the field is
/// empty or missing.
pub fn pick_decimal_field(
    fields: &Vec<String>,
    num: usize,
) -> (r: Result<Option<Decimal>, ParseError>)
    requires
        all_ascii(fields@),
    ensures
        r is Ok <==> decimal_field_valid(views(fields@), num as int),
        r is Ok ==> r.unwrap() == decimal_field(views(fields@), num as int),
        r is Err ==> r.unwrap_err() is InvalidSentence && r.unwrap_err().text()
            == field_error_text(num as nat, field_or_empty(views(fields@), num as int)),
{
    let s: &str = field(fields, num);
    if ascii_len(s) == 0 {
        return Ok(None);
    }
    match parse_decimal(s) {
        Some(v) => Ok(Some(v)),
        None => {
            let mut msg: String = String::from_str("Failed to parse field ");
            push_decimal(&mut msg, num as u64);
            push_text(&mut msg, ": ");
            push_text(&mut msg, s);
            Err(ParseError::InvalidSentence(msg))
        },
    }
}

/// The text in field `num`; nothing where the field is empty or missing.
pub open spec fn string_field(fields: Seq<Seq<char>>, num: int) -> Option<Seq<char>> {
    let s = field_or_empty(fields, num);
    if s.len() == 0 {
        None
    } else {
        Some(s)
    }
}

/// Reads field `num` as a text; nothing where the field is empty or
/// missing.
pub fn pick_string_field(fields: &Vec<String>, num: usize) -> (r: Option<String>)
    requires
        all_ascii(fields@),
    ensures
        text_view(r) == string_field(views(fields@), num as int),
{
    let s: &str = field(fields, num);
    if ascii_len(s) == 0 {
        None
    } else {
        Some(String::from_str(s))
    }
}

/// Whether `c` is a hexadecimal digit, in either case.
pub open spec fn is_hex_digit(c: char) -> bool {
    ('0' <= c <= '9') || ('a' <= c <= 'f') || ('A' <= c <= 'F')
}

/// The value of a hexadecimal digit.
pub open spec fn hex_digit_value(c: char) -> nat {
    if '0' <= c <= '9' {
        (c as u8 - 48) as nat
    } else if 'a' <= c <= 'f' {
        (c as u8 - 87) as nat
    } else {
        (c as u8 - 55) as nat
    }
}

/// The number that the hexadecimal digits `s` write; 0 for the empty
/// text.
pub open spec fn hex_digits_value(s: Seq<char>) -> nat
    decreases s.len(),
{
    if s.len() == 0 {
        0
    } else {
        16 * hex_digits_value(s.drop_last()) + hex_digit_value(s.last())
    }
}

/// What a text writes as a hexadecimal number of at most 64 bits: an
/// optional `+` and at least one hexadecimal digit, nothing else.
pub open spec fn hex_value(s: Seq<char>) -> Option<u64> {
    let d = if s.len() > 0 && s[0] == '+' {
        s.subrange(1, s.len() as int)
    } else {
        s
    };
    if d.len() > 0 && (forall|i: int| 0 <= i < d.len() ==> is_hex_digit(#[trigger] d[i]))
        && hex_digits_value(d) <= u64::MAX {
        Some(hex_digits_value(d) as u64)
    } else {
        None
    }
}

/// `num_traits::Num::from_str_radix` of `u64` with radix 16, which is
/// that of std: the text is read as an optional `+` and hexadecimal
/// digits in either case; it fails on an empty text, on any other
/// character and on a number that does not fit.
#[verifier::external_body]
fn parse_hex(s: &str) -> (r: Option<u64>)
    ensures
        r == hex_value(s@),
{
    <u64 as num_traits::Num>::from_str_radix(s, 16).ok()
}

/// Whether field `num` is empty or missing, or a hexadecimal number up
/// to `max`.
pub open spec fn hex_field_valid(fields: Seq<Seq<char>>, num: int, max: u64) -> bool {
    let s = field_or_empty(fields, num);
    s.len() == 0 || (hex_value(s) is Some && hex_value(s).unwrap() <= max)
}

/// The hexadecimal number in field `num`; nothing where the field is
/// empty or missing.
pub open spec fn hex_field(fields: Seq<Seq<char>>, num: int) -> Option<u64> {
    let s = field_or_empty(fields, num);
    if s.len() == 0 {
        None
    } else {
        hex_value(s)
    }
}

/// Reads field `num` as a hexadecimal number up to `max`; nothing where
/// the field is empty or missing.
pub fn pick_hex_field(
    fields: &Vec<String>,
    num: usize,
    max: u64,
) -> (r: Result<Option<u64>, ParseError>)
    requires
        all_ascii(fields@),
    ensures
        r is Ok <==> hex_field_valid(views(fields@), num as int, max),
        r is Ok ==> r.unwrap() == hex_field(views(fields@), num as int),
        r is Err ==> r.unwrap_err() is InvalidSentence && r.unwrap_err().text()
            == hex_field_error_text(num as nat, field_or_empty(views(fields@), num as int)),
{
    let s: &str = field(fields, num);
    if ascii_len(s) == 0 {
        return Ok(None);
    }
    match hex_in_range(parse_hex(s), max) {
        Some(v) => Ok(Some(v)),
        None => {
            let mut msg: String = String::from_str("Failed to parse hex field ");
            push_decimal(&mut msg, num as u64);
            push_text(&mut msg, ": ");
            push_text(&mut msg, s);
            Err(ParseError::InvalidSentence(msg))
        },
    }
}

/// A number read where it is at most `max`.
pub fn hex_in_range(value: Option<u64>, max: u64) -> (r: Option<u64>)
    ensures
        r == (match value {
            Some(v) => if v <= max {
                Some(v)
            } else {
                None
            },
            None => None,
        }),
{
    match value {
        Some(v) => if v <= max {
            Some(v)
        } else {
            None
        },
        None => None,
    }
}

/// The hexadecimal number of 8 bits in field `num`.
pub open spec fn hex_u8_field(fields: Seq<Seq<char>>, num: int) -> Option<u8> {
    match hex_field(fields, num) {
        Some(v) => Some(v as u8),
        None => None,
    }
}

/// Reads field `num` as a hexadecimal number of 8 bits.
pub fn pick_hex_u8_field(fields: &Vec<String>, num: usize) -> (r: Result<Option<u8>, ParseError>)
    requires
        all_ascii(fields@),
    ensures
        r is Ok <==> hex_field_valid(views(fields@), num as int, 255),
        r is Ok ==> r.unwrap() == hex_u8_field(views(fields@), num as int),
        r is Err ==> r.unwrap_err() is InvalidSentence && r.unwrap_err().text()
            == hex_field_error_text(num as nat, field_or_empty(views(fields@), num as int)),
{
    match pick_hex_field(fields, num, 255) {
        Ok(Some(v)) => Ok(Some(v as u8)),
        Ok(None) => Ok(None),
        Err(e) => Err(e),
    }
}

/// The hexadecimal number of 16 bits in field `num`.
pub open spec fn hex_u16_field(fields: Seq<Seq<char>>, num: int) -> Option<u16> {
    match hex_field(fields, num) {
        Some(v) => Some(v as u16),
        None => None,
    }
}

/// Reads field `num` as a hexadecimal number of 16 bits.
pub fn pick_hex_u16_field(fields: &Vec<String>, num: usize) -> (r: Result<Option<u16>, ParseError>)
    requires
        all_ascii(fields@),
    ensures
        r is Ok <==> hex_field_valid(views(fields@), num as int, 65535),
        r is Ok ==> r.unwrap() == hex_u16_field(views(fields@), num as int),
        r is Err ==> r.unwrap_err() is InvalidSentence && r.unwrap_err().text()
            == hex_field_error_text(num as nat, field_or_empty(views(fields@), num as int)),
{
    match pick_hex_field(fields, num, 65535) {
        Ok(Some(v)) => Ok(Some(v as u16)),
        Ok(None) => Ok(None),
        Err(e) => Err(e),
    }
}

/// The hexadecimal number of 32 bits in field `num`.
pub open spec fn hex_u32_field(fields: Seq<Seq<char>>, num: int) -> Option<u32> {
    match hex_field(fields, num) {
        Some(v) => Some(v as u32),
        None => None,
    }
}

/// Reads field `num` as a hexadecimal number of 32 bits.
pub fn pick_hex_u32_field(fields: &Vec<String>, num: usize) -> (r: Result<Option<u32>, ParseError>)
    requires
        all_ascii(fields@),
    ensures
        r is Ok <==> hex_field_valid(views(fields@), num as int, 0xffff_ffff),
        r is Ok ==> r.unwrap() == hex_u32_field(views(fields@), num as int),
        r is Err ==> r.unwrap_err() is InvalidSentence && r.unwrap_err().text()
            == hex_field_error_text(num as nat, field_or_empty(views(fields@), num as int)),
{
    match pick_hex_field(fields, num, 0xffff_ffff) {
        Ok(Some(v)) => Ok(Some(v as u32)),
        Ok(None) => Ok(None),
        Err(e) => Err(e),
    }
}

/// Whether field `num` is empty or missing, or one of the characters
/// `yes` and `no`.
pub open spec fn choice_field_valid(fields: Seq<Seq<char>>, num: int, yes: char, no: char) -> bool {
    let s = field_or_empty(fields, num);
    s.len() == 0 || s == seq![yes] || s == seq![no]
}

/// What a field that holds one of two characters says: true for `yes`,
/// false for `no`, nothing where it is empty or missing.
pub open spec fn choice_field(fields: Seq<Seq<char>>, num: int, yes: char) -> Option<bool> {
    let s = field_or_empty(fields, num);
    if s.len() == 0 {
        None
    } else {
        Some(s == seq![yes])
    }
}

/// Reads a field that holds one of two characters. Any other text is an
/// error, whose message is `prefix` followed by the text.
pub fn pick_choice_field(
    fields: &Vec<String>,
    num: usize,
    yes: char,
    no: char,
    prefix: &str,
) -> (r: Result<Option<bool>, ParseError>)
    requires
        all_ascii(fields@),
    ensures
        r is Ok <==> choice_field_valid(views(fields@), num as int, yes, no),
        r is Ok ==> r.unwrap() == choice_field(views(fields@), num as int, yes),
        r is Err ==> r.unwrap_err() is InvalidSentence && r.unwrap_err().text() == prefix@
            + field_or_empty(views(fields@), num as int),
{
    let s: &str = field(fields, num);
    if ascii_len(s) == 0 {
        Ok(None)
    } else if is_char(s, yes) {
        Ok(Some(true))
    } else if is_char(s, no) {
        Ok(Some(false))
    } else {
        Err(invalid_with(prefix, s))
    }
}

/// The decimal number in field `num`; nothing where the field is empty,
/// missing, or no decimal number that can be held.
pub open spec fn lenient_decimal_field(fields: Seq<Seq<char>>, num: int) -> Option<Decimal> {
    if decimal_field_valid(fields, num) {
        decimal_field(fields, num)
    } else {
        None
    }
}

/// Reads field `num` as a decimal number; nothing where it cannot be
/// read.
pub fn pick_lenient_decimal_field(fields: &Vec<String>, num: usize) -> (r: Option<Decimal>)
    requires
        all_ascii(fields@),
    ensures
        r == lenient_decimal_field(views(fields@), num as int),
{
    match pick_decimal_field(fields, num) {
        Ok(v) => v,
        Err(_) => None,
    }
}

/// The number of 8 bits in field `num`; nothing where the field is
/// empty, missing, or no such number.
pub open spec fn lenient_u8_field(fields: Seq<Seq<char>>, num: int) -> Option<u8> {
    if number_field_valid(fields, num, 255) {
        u8_field(fields, num)
    } else {
        None
    }
}

/// Reads field `num` as a number of 8 bits; nothing where it cannot be
/// read.
pub fn pick_lenient_u8_field(fields: &Vec<String>, num: usize) -> (r: Option<u8>)
    requires
        all_ascii(fields@),
    ensures
        r == lenient_u8_field(views(fields@), num as int),
{
    match pick_u8_field(fields, num) {
        Ok(v) => v,
        Err(_) => None,
    }
}

/// The number of 16 bits in field `num`; nothing where the field is
/// empty, missing, or no such number.
pub open spec fn lenient_u16_field(fields: Seq<Seq<char>>, num: int) -> Option<u16> {
    if number_field_valid(fields, num, 65535) {
        u16_field(fields, num)
    } else {
        None
    }
}

/// Reads field `num` as a number of 16 bits; nothing where it cannot be
/// read.
pub fn pick_lenient_u16_field(fields: &Vec<String>, num: usize) -> (r: Option<u16>)
    requires
        all_ascii(fields@),
    ensures
        r == lenient_u16_field(views(fields@), num as int),
{
    match pick_u16_field(fields, num) {
        Ok(v) => v,
        Err(_) => None,
    }
}

} // verus!
