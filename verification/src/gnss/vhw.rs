//! VHW: speed through the water and heading.

use crate::ParsedMessage;
use crate::decimal::Decimal;
use crate::error::ParseError;
use crate::fields::{decimal_field, decimal_field_valid, field_error_text, pick_decimal_field};
use crate::text::{all_ascii, field_or_empty, views};
use vstd::prelude::*;

verus! {

/// Speed through the water and heading: VHW.
#[derive(Clone, Debug, PartialEq)]
pub struct VhwData {
    /// Heading in degrees true.
    pub heading_true: Option<Decimal>,
    /// Heading in degrees magnetic.
    pub heading_magnetic: Option<Decimal>,
    /// Speed through the water in knots.
    pub speed_through_water_knots: Option<Decimal>,
    /// Speed through the water in kilometres an hour.
    pub speed_through_water_kmh: Option<Decimal>,
}

/// The message of the error that decoding a VHW sentence ends in, if it
/// ends in one: that of the first field that cannot be read.
pub open spec fn failure(fields: Seq<Seq<char>>) -> Option<Seq<char>> {
    if !decimal_field_valid(fields, 1) {
        Some(field_error_text(1, field_or_empty(fields, 1)))
    } else if !decimal_field_valid(fields, 3) {
        Some(field_error_text(3, field_or_empty(fields, 3)))
    } else if !decimal_field_valid(fields, 5) {
        Some(field_error_text(5, field_or_empty(fields, 5)))
    } else if !decimal_field_valid(fields, 7) {
        Some(field_error_text(7, field_or_empty(fields, 7)))
    } else {
        None
    }
}

/// The record that the fields of a VHW sentence hold.
pub open spec fn record(fields: Seq<Seq<char>>) -> VhwData {
    VhwData {
        heading_true: decimal_field(fields, 1),
        heading_magnetic: decimal_field(fields, 3),
        speed_through_water_knots: decimal_field(fields, 5),
        speed_through_water_kmh: decimal_field(fields, 7),
    }
}

/// Whether `r` is what decoding a VHW sentence gives.
pub open spec fn decodes(fields: Seq<Seq<char>>, r: Result<ParsedMessage, ParseError>) -> bool {
    match failure(fields) {
        Some(text) => {
            &&& r is Err
            &&& r.unwrap_err() is InvalidSentence
            &&& r.unwrap_err().text() == text
        },
        None => r == Ok::<ParsedMessage, ParseError>(ParsedMessage::Vhw(record(fields))),
    }
}

/// Decodes a VHW sentence from its fields.
pub fn handle(fields: &Vec<String>) -> (r: Result<ParsedMessage, ParseError>)
    requires
        all_ascii(fields@),
    ensures
        decodes(views(fields@), r),
{
    let heading_true = match pick_decimal_field(fields, 1) {
        Ok(v) => v,
        Err(e) => {
            return Err(e);
        },
    };
    let heading_magnetic = match pick_decimal_field(fields, 3) {
        Ok(v) => v,
        Err(e) => {
            return Err(e);
        },
    };
    let speed_through_water_knots = match pick_decimal_field(fields, 5) {
        Ok(v) => v,
        Err(e) => {
            return Err(e);
        },
    };
    let speed_through_water_kmh = match pick_decimal_field(fields, 7) {
        Ok(v) => v,
        Err(e) => {
            return Err(e);
        },
    };
    Ok(
        ParsedMessage::Vhw(
            VhwData {
                heading_true,
                heading_magnetic,
                speed_through_water_knots,
                speed_through_water_kmh,
            },
        ),
    )
}

} // verus!
