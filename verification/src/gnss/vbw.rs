//! VBW: dual ground and water speed.

use crate::ParsedMessage;
use crate::decimal::Decimal;
use crate::error::ParseError;
use crate::fields::{decimal_field, decimal_field_valid, field_error_text, pick_decimal_field};
use crate::gnss::NavigationSystem;
use crate::text::{all_ascii, ascii_len, field, field_or_empty, is_char, views};
use vstd::prelude::*;

verus! {

/// Dual ground and water speed: VBW.
#[derive(Clone, Debug, PartialEq)]
pub struct VbwData {
    /// The navigation system that the talker tells.
    pub source: NavigationSystem,
    /// Longitudinal water speed in knots, negative astern.
    pub lon_water_speed_knots: Option<Decimal>,
    /// Transverse water speed in knots, negative to port.
    pub tr_water_speed_knots: Option<Decimal>,
    /// Whether the water speed is valid.
    pub water_speed_valid: Option<bool>,
    /// Longitudinal ground speed in knots, negative astern.
    pub lon_ground_speed_knots: Option<Decimal>,
    /// Transverse ground speed in knots, negative to port.
    pub tr_ground_speed_knots: Option<Decimal>,
    /// Whether the ground speed is valid.
    pub ground_speed_valid: Option<bool>,
}

/// What a status field says: true for `A`, nothing where it is empty or
/// missing, false for anything else.
pub open spec fn status(fields: Seq<Seq<char>>, num: int) -> Option<bool> {
    let s = field_or_empty(fields, num);
    if s == seq!['A'] {
        Some(true)
    } else if s.len() == 0 {
        None
    } else {
        Some(false)
    }
}

/// Reads a status field.
pub fn pick_status(fields: &Vec<String>, num: usize) -> (r: Option<bool>)
    requires
        all_ascii(fields@),
    ensures
        r == status(views(fields@), num as int),
{
    let s: &str = field(fields, num);
    if is_char(s, 'A') {
        Some(true)
    } else if ascii_len(s) == 0 {
        None
    } else {
        Some(false)
    }
}

/// The message of the error that decoding a VBW sentence ends in, if it
/// ends in one: that of the first field that cannot be read.
pub open spec fn failure(fields: Seq<Seq<char>>) -> Option<Seq<char>> {
    if !decimal_field_valid(fields, 1) {
        Some(field_error_text(1, field_or_empty(fields, 1)))
    } else if !decimal_field_valid(fields, 2) {
        Some(field_error_text(2, field_or_empty(fields, 2)))
    } else if !decimal_field_valid(fields, 4) {
        Some(field_error_text(4, field_or_empty(fields, 4)))
    } else if !decimal_field_valid(fields, 5) {
        Some(field_error_text(5, field_or_empty(fields, 5)))
    } else {
        None
    }
}

/// The record that the fields of a VBW sentence hold.
pub open spec fn record(fields: Seq<Seq<char>>, nav_system: NavigationSystem) -> VbwData {
    VbwData {
        source: nav_system,
        lon_water_speed_knots: decimal_field(fields, 1),
        tr_water_speed_knots: decimal_field(fields, 2),
        water_speed_valid: status(fields, 3),
        lon_ground_speed_knots: decimal_field(fields, 4),
        tr_ground_speed_knots: decimal_field(fields, 5),
        ground_speed_valid: status(fields, 6),
    }
}

/// Whether `r` is what decoding a VBW sentence gives.
pub open spec fn decodes(
    fields: Seq<Seq<char>>,
    nav_system: NavigationSystem,
    r: Result<ParsedMessage, ParseError>,
) -> bool {
    match failure(fields) {
        Some(text) => {
            &&& r is Err
            &&& r.unwrap_err() is InvalidSentence
            &&& r.unwrap_err().text() == text
        },
        None => r == Ok::<ParsedMessage, ParseError>(
            ParsedMessage::Vbw(record(fields, nav_system)),
        ),
    }
}

/// Decodes a VBW sentence from its fields.
pub fn handle(
    fields: &Vec<String>,
    nav_system: NavigationSystem,
) -> (r: Result<ParsedMessage, ParseError>)
    requires
        all_ascii(fields@),
    ensures
        decodes(views(fields@), nav_system, r),
{
    let lon_water_speed_knots = match pick_decimal_field(fields, 1) {
        Ok(v) => v,
        Err(e) => {
            return Err(e);
        },
    };
    let tr_water_speed_knots = match pick_decimal_field(fields, 2) {
        Ok(v) => v,
        Err(e) => {
            return Err(e);
        },
    };
    let water_speed_valid = pick_status(fields, 3);
    let lon_ground_speed_knots = match pick_decimal_field(fields, 4) {
        Ok(v) => v,
        Err(e) => {
            return Err(e);
        },
    };
    let tr_ground_speed_knots = match pick_decimal_field(fields, 5) {
        Ok(v) => v,
        Err(e) => {
            return Err(e);
        },
    };
    let ground_speed_valid = pick_status(fields, 6);
    Ok(
        ParsedMessage::Vbw(
            VbwData {
                source: nav_system,
                lon_water_speed_knots,
                tr_water_speed_knots,
                water_speed_valid,
                lon_ground_speed_knots,
                tr_ground_speed_knots,
                ground_speed_valid,
            },
        ),
    )
}

} // verus!
