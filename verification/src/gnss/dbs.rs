//! DBS: depth below surface.

use crate::ParsedMessage;
use crate::decimal::Decimal;
use crate::error::ParseError;
use crate::fields::{decimal_field, decimal_field_valid, field_error_text, pick_decimal_field};
use crate::text::{all_ascii, field_or_empty, views};
use vstd::prelude::*;

verus! {

/// Depth below surface: DBS.
#[derive(Clone, Debug, PartialEq)]
pub struct DbsData {
    /// Depth in metres.
    pub depth_meters: Option<Decimal>,
    /// Depth in feet.
    pub depth_feet: Option<Decimal>,
    /// Depth in fathoms.
    pub depth_fathoms: Option<Decimal>,
}

/// The message of the error that decoding a DBS sentence ends in, if it
/// ends in one: that of the first field that cannot be read.
pub open spec fn failure(fields: Seq<Seq<char>>) -> Option<Seq<char>> {
    if !decimal_field_valid(fields, 3) {
        Some(field_error_text(3, field_or_empty(fields, 3)))
    } else if !decimal_field_valid(fields, 1) {
        Some(field_error_text(1, field_or_empty(fields, 1)))
    } else if !decimal_field_valid(fields, 5) {
        Some(field_error_text(5, field_or_empty(fields, 5)))
    } else {
        None
    }
}

/// The record that the fields of a DBS sentence hold.
pub open spec fn record(fields: Seq<Seq<char>>) -> DbsData {
    DbsData {
        depth_meters: decimal_field(fields, 3),
        depth_feet: decimal_field(fields, 1),
        depth_fathoms: decimal_field(fields, 5),
    }
}

/// Whether `r` is what decoding a DBS sentence gives.
pub open spec fn decodes(fields: Seq<Seq<char>>, r: Result<ParsedMessage, ParseError>) -> bool {
    match failure(fields) {
        Some(text) => {
            &&& r is Err
            &&& r.unwrap_err() is InvalidSentence
            &&& r.unwrap_err().text() == text
        },
        None => r == Ok::<ParsedMessage, ParseError>(ParsedMessage::Dbs(record(fields))),
    }
}

/// Decodes a DBS sentence from its fields.
pub fn handle(fields: &Vec<String>) -> (r: Result<ParsedMessage, ParseError>)
    requires
        all_ascii(fields@),
    ensures
        decodes(views(fields@), r),
{
    let depth_meters = match pick_decimal_field(fields, 3) {
        Ok(v) => v,
        Err(e) => {
            return Err(e);
        },
    };
    let depth_feet = match pick_decimal_field(fields, 1) {
        Ok(v) => v,
        Err(e) => {
            return Err(e);
        },
    };
    let depth_fathoms = match pick_decimal_field(fields, 5) {
        Ok(v) => v,
        Err(e) => {
            return Err(e);
        },
    };
    Ok(
        ParsedMessage::Dbs(
            DbsData {
                depth_meters,
                depth_feet,
                depth_fathoms,
            },
        ),
    )
}

} // verus!
