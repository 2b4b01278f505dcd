//! MWV: wind speed and angle.

use crate::ParsedMessage;
use crate::decimal::Decimal;
use crate::error::ParseError;
use crate::fields::{decimal_field, decimal_field_valid, field_error_text, pick_decimal_field};
use crate::text::{all_ascii, field, field_or_empty, is_char, views};
use vstd::prelude::*;

verus! {

/// The unit that a wind speed is given in.
#[derive(Clone, Copy, Debug, PartialEq, Eq, Structural)]
pub enum SpeedUnit {
    /// Knots: `N`.
    Knots,
    /// Metres a second: `M`.
    MetersPerSecond,
    /// Kilometres an hour: `K`.
    KilometersPerHour,
}

/// Wind speed and angle: MWV.
#[derive(Clone, Debug, PartialEq)]
pub struct MwvData {
    /// Wind angle in degrees, 0 to 359.
    pub wind_angle: Option<Decimal>,
    /// True for an angle relative to the vessel, false for a true one.
    pub relative: Option<bool>,
    /// Wind speed, in the unit that `wind_speed_unit` names.
    pub wind_speed: Option<Decimal>,
    /// The unit of the wind speed.
    pub wind_speed_unit: Option<SpeedUnit>,
}

/// What the reference field says: true for `R`, false for `T`, nothing
/// for anything else.
pub open spec fn reference(fields: Seq<Seq<char>>) -> Option<bool> {
    if field_or_empty(fields, 2) == seq!['R'] {
        Some(true)
    } else if field_or_empty(fields, 2) == seq!['T'] {
        Some(false)
    } else {
        None
    }
}

/// The unit that the unit field names.
pub open spec fn unit(fields: Seq<Seq<char>>) -> Option<SpeedUnit> {
    if field_or_empty(fields, 4) == seq!['N'] {
        Some(SpeedUnit::Knots)
    } else if field_or_empty(fields, 4) == seq!['M'] {
        Some(SpeedUnit::MetersPerSecond)
    } else if field_or_empty(fields, 4) == seq!['K'] {
        Some(SpeedUnit::KilometersPerHour)
    } else {
        None
    }
}

/// The message of the error that decoding an MWV sentence ends in, if it
/// ends in one. The wind speed is read only where its unit is known.
pub open spec fn failure(fields: Seq<Seq<char>>) -> Option<Seq<char>> {
    if !decimal_field_valid(fields, 1) {
        Some(field_error_text(1, field_or_empty(fields, 1)))
    } else if unit(fields) is Some && !decimal_field_valid(fields, 3) {
        Some(field_error_text(3, field_or_empty(fields, 3)))
    } else {
        None
    }
}

/// The record that the fields of an MWV sentence hold.
pub open spec fn record(fields: Seq<Seq<char>>) -> MwvData {
    MwvData {
        wind_angle: decimal_field(fields, 1),
        relative: reference(fields),
        wind_speed: if unit(fields) is Some {
            decimal_field(fields, 3)
        } else {
            None
        },
        wind_speed_unit: unit(fields),
    }
}

/// Whether `r` is what decoding an MWV sentence gives.
pub open spec fn decodes(fields: Seq<Seq<char>>, r: Result<ParsedMessage, ParseError>) -> bool {
    match failure(fields) {
        Some(text) => {
            &&& r is Err
            &&& r.unwrap_err() is InvalidSentence
            &&& r.unwrap_err().text() == text
        },
        None => r == Ok::<ParsedMessage, ParseError>(ParsedMessage::Mwv(record(fields))),
    }
}

/// Decodes an MWV sentence from its fields.
pub fn handle(fields: &Vec<String>) -> (r: Result<ParsedMessage, ParseError>)
    requires
        all_ascii(fields@),
    ensures
        decodes(views(fields@), r),
{
    let wind_angle = match pick_decimal_field(fields, 1) {
        Ok(v) => v,
        Err(e) => {
            return Err(e);
        },
    };
    let reference: &str = field(fields, 2);
    let relative: Option<bool> = if is_char(reference, 'R') {
        Some(true)
    } else if is_char(reference, 'T') {
        Some(false)
    } else {
        None
    };
    let unit: &str = field(fields, 4);
    let wind_speed_unit: Option<SpeedUnit> = if is_char(unit, 'N') {
        Some(SpeedUnit::Knots)
    } else if is_char(unit, 'M') {
        Some(SpeedUnit::MetersPerSecond)
    } else if is_char(unit, 'K') {
        Some(SpeedUnit::KilometersPerHour)
    } else {
        None
    };
    let wind_speed = if wind_speed_unit.is_some() {
        match pick_decimal_field(fields, 3) {
            Ok(v) => v,
            Err(e) => {
                return Err(e);
            },
        }
    } else {
        None
    };
    Ok(ParsedMessage::Mwv(MwvData { wind_angle, relative, wind_speed, wind_speed_unit }))
}

} // verus!
