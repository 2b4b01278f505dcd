//! GSA: dilution of precision and active satellites.

use crate::ParsedMessage;
use crate::decimal::Decimal;
use crate::error::ParseError;
use crate::fields::{
    choice_field, choice_field_valid, decimal_field, decimal_field_valid, field_error_text,
    number_field_valid, pick_choice_field, pick_decimal_field, pick_u8_field, u8_field,
};
use crate::gnss::NavigationSystem;
use crate::text::{all_ascii, ascii_len, field, field_or_empty, is_char, push_text, views};
use vstd::prelude::*;
use vstd::string::*;

verus! {

/// Dilution of precision and active satellites: GSA.
#[derive(Clone, Debug, PartialEq)]
pub struct GsaData {
    /// The navigation system that the talker tells.
    pub source: NavigationSystem,
    /// True where the receiver switches between 2D and 3D by itself,
    /// false where it is forced to one.
    pub mode1_automatic: Option<bool>,
    /// The kind of fix.
    pub mode2_3d: Option<GsaFixMode>,
    /// PRN numbers of the satellites used, twelve at most.
    pub prn_numbers: Vec<u8>,
    /// Position dilution of precision.
    pub pdop: Option<Decimal>,
    /// Horizontal dilution of precision.
    pub hdop: Option<Decimal>,
    /// Vertical dilution of precision.
    pub vdop: Option<Decimal>,
}

/// The kind of a GSA fix.
#[derive(Clone, Copy, Debug, PartialEq, Eq, Structural)]
pub enum GsaFixMode {
    /// No fix: `1`.
    NotAvailable,
    /// A fix in two dimensions: `2`.
    Fix2D,
    /// A fix in three dimensions: `3`.
    Fix3D,
}

/// Whether the fix field is empty or missing, or one of `1`, `2`, `3`.
pub open spec fn fix_mode_valid(fields: Seq<Seq<char>>) -> bool {
    let s = field_or_empty(fields, 2);
    s.len() == 0 || s == seq!['1'] || s == seq!['2'] || s == seq!['3']
}

/// The kind of fix that the fix field names.
pub open spec fn fix_mode(fields: Seq<Seq<char>>) -> Option<GsaFixMode> {
    let s = field_or_empty(fields, 2);
    if s == seq!['1'] {
        Some(GsaFixMode::NotAvailable)
    } else if s == seq!['2'] {
        Some(GsaFixMode::Fix2D)
    } else if s == seq!['3'] {
        Some(GsaFixMode::Fix3D)
    } else {
        None
    }
}

/// The first of the fields `from..to` that holds no number of 8 bits,
/// if there is one.
pub open spec fn first_bad_prn(fields: Seq<Seq<char>>, from: int, to: int) -> Option<int>
    decreases to - from,
{
    if from >= to {
        None
    } else if !number_field_valid(fields, from, 255) {
        Some(from)
    } else {
        first_bad_prn(fields, from + 1, to)
    }
}

/// The numbers in those of the fields `from..to` that are not empty, in
/// order.
pub open spec fn prn_numbers(fields: Seq<Seq<char>>, from: int, to: int) -> Seq<u8>
    decreases to - from,
{
    if from >= to {
        Seq::empty()
    } else {
        prn_numbers(fields, from, to - 1) + (match u8_field(fields, to - 1) {
            Some(v) => seq![v],
            None => Seq::empty(),
        })
    }
}

/// The message of the error that decoding a GSA sentence ends in, if it
/// ends in one: that of the first field that cannot be read.
pub open spec fn failure(fields: Seq<Seq<char>>) -> Option<Seq<char>> {
    if !choice_field_valid(fields, 1, 'A', 'M') {
        Some("Invalid GPGSA mode: "@ + field_or_empty(fields, 1))
    } else if !fix_mode_valid(fields) {
        Some("Invalid GPGSA fix type: "@ + field_or_empty(fields, 2))
    } else if first_bad_prn(fields, 3, 15) is Some {
        Some(
            field_error_text(
                first_bad_prn(fields, 3, 15).unwrap() as nat,
                field_or_empty(fields, first_bad_prn(fields, 3, 15).unwrap()),
            ),
        )
    } else if !decimal_field_valid(fields, 15) {
        Some(field_error_text(15, field_or_empty(fields, 15)))
    } else if !decimal_field_valid(fields, 16) {
        Some(field_error_text(16, field_or_empty(fields, 16)))
    } else if !decimal_field_valid(fields, 17) {
        Some(field_error_text(17, field_or_empty(fields, 17)))
    } else {
        None
    }
}

/// Whether `m` is the record that the fields of a GSA sentence hold. The
/// satellites are the fields 3 to 14.
pub open spec fn is_record(
    fields: Seq<Seq<char>>,
    nav_system: NavigationSystem,
    m: GsaData,
) -> bool {
    &&& m.source == nav_system
    &&& m.mode1_automatic == choice_field(fields, 1, 'A')
    &&& m.mode2_3d == fix_mode(fields)
    &&& m.prn_numbers@ == prn_numbers(fields, 3, 15)
    &&& m.pdop == decimal_field(fields, 15)
    &&& m.hdop == decimal_field(fields, 16)
    &&& m.vdop == decimal_field(fields, 17)
}

/// Whether `r` is what decoding a GSA sentence gives.
pub open spec fn decodes(
    fields: Seq<Seq<char>>,
    nav_system: NavigationSystem,
    r: Result<ParsedMessage, ParseError>,
) -> bool {
    match failure(fields) {
        Some(text) => {
            &&& r is Err
            &&& r.unwrap_err() is InvalidSentence
            &&& r.unwrap_err().text() == text
        },
        None => match r {
            Ok(ParsedMessage::Gsa(m)) => is_record(fields, nav_system, m),
            _ => false,
        },
    }
}

/// Decodes a GSA sentence from its fields.
pub fn handle(
    fields: &Vec<String>,
    nav_system: NavigationSystem,
) -> (r: Result<ParsedMessage, ParseError>)
    requires
        all_ascii(fields@),
    ensures
        decodes(views(fields@), nav_system, r),
{
    let mode1_automatic = match pick_choice_field(fields, 1, 'A', 'M', "Invalid GPGSA mode: ") {
        Ok(v) => v,
        Err(e) => {
            return Err(e);
        },
    };
    let fix: &str = field(fields, 2);
    let mode2_3d: Option<GsaFixMode> = if is_char(fix, '1') {
        Some(GsaFixMode::NotAvailable)
    } else if is_char(fix, '2') {
        Some(GsaFixMode::Fix2D)
    } else if is_char(fix, '3') {
        Some(GsaFixMode::Fix3D)
    } else if ascii_len(fix) == 0 {
        None
    } else {
        let mut msg: String = String::from_str("Invalid GPGSA fix type: ");
        push_text(&mut msg, fix);
        return Err(ParseError::InvalidSentence(msg));
    };
    let mut prns: Vec<u8> = Vec::new();
    let mut i: usize = 3;
    while i < 15
        invariant
            all_ascii(fields@),
            3 <= i <= 15,
            prns@ == prn_numbers(views(fields@), 3, i as int),
            first_bad_prn(views(fields@), 3, 15) == first_bad_prn(views(fields@), i as int, 15),
            choice_field_valid(views(fields@), 1, 'A', 'M'),
            fix_mode_valid(views(fields@)),
        decreases 15 - i,
    {
        match pick_u8_field(fields, i) {
            Ok(Some(v)) => {
                prns.push(v);
            },
            Ok(None) => {},
            Err(e) => {
                return Err(e);
            },
        }
        i += 1;
    }
    let pdop = match pick_decimal_field(fields, 15) {
        Ok(v) => v,
        Err(e) => {
            return Err(e);
        },
    };
    let hdop = match pick_decimal_field(fields, 16) {
        Ok(v) => v,
        Err(e) => {
            return Err(e);
        },
    };
    let vdop = match pick_decimal_field(fields, 17) {
        Ok(v) => v,
        Err(e) => {
            return Err(e);
        },
    };
    Ok(
        ParsedMessage::Gsa(
            GsaData {
                source: nav_system,
                mode1_automatic,
                mode2_3d,
                prn_numbers: prns,
                pdop,
                hdop,
                vdop,
            },
        ),
    )
}

impl GsaFixMode {
    /// What the variant is called in a message.
    pub open spec fn label_text(self) -> Seq<char> {
        match self {
            GsaFixMode::NotAvailable => "no available"@,
            GsaFixMode::Fix2D => "2D fix"@,
            GsaFixMode::Fix3D => "3D fix"@,
        }
    }

    /// What the variant is called in a message.
    pub fn label(&self) -> (r: &'static str)
        ensures
            r@ == self.label_text(),
    {
        match self {
            GsaFixMode::NotAvailable => "no available",
            GsaFixMode::Fix2D => "2D fix",
            GsaFixMode::Fix3D => "3D fix",
        }
    }
}

} // verus!
