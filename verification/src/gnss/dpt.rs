//! DPT: depth of water.

use crate::ParsedMessage;
use crate::decimal::Decimal;
use crate::error::ParseError;
use crate::fields::{decimal_field, decimal_field_valid, field_error_text, pick_decimal_field};
use crate::text::{all_ascii, field_or_empty, views};
use vstd::prelude::*;

verus! {

/// Depth of water: DPT.
#[derive(Clone, Debug, PartialEq)]
pub struct DptData {
    /// Depth below the transducer, in metres.
    pub depth_relative_to_transducer: Option<Decimal>,
    /// Offset of the transducer, in metres: positive to the water line,
    /// negative to the keel.
    pub transducer_offset: Option<Decimal>,
}

/// The message of the error that decoding a DPT sentence ends in, if it
/// ends in one: that of the first field that cannot be read.
pub open spec fn failure(fields: Seq<Seq<char>>) -> Option<Seq<char>> {
    if !decimal_field_valid(fields, 1) {
        Some(field_error_text(1, field_or_empty(fields, 1)))
    } else if !decimal_field_valid(fields, 2) {
        Some(field_error_text(2, field_or_empty(fields, 2)))
    } else {
        None
    }
}

/// The record that the fields of a DPT sentence hold.
pub open spec fn record(fields: Seq<Seq<char>>) -> DptData {
    DptData {
        depth_relative_to_transducer: decimal_field(fields, 1),
        transducer_offset: decimal_field(fields, 2),
    }
}

/// Whether `r` is what decoding a DPT sentence gives.
pub open spec fn decodes(fields: Seq<Seq<char>>, r: Result<ParsedMessage, ParseError>) -> bool {
    match failure(fields) {
        Some(text) => {
            &&& r is Err
            &&& r.unwrap_err() is InvalidSentence
            &&& r.unwrap_err().text() == text
        },
        None => r == Ok::<ParsedMessage, ParseError>(ParsedMessage::Dpt(record(fields))),
    }
}

/// Decodes a DPT sentence from its fields.
pub fn handle(fields: &Vec<String>) -> (r: Result<ParsedMessage, ParseError>)
    requires
        all_ascii(fields@),
    ensures
        decodes(views(fields@), r),
{
    let depth_relative_to_transducer = match pick_decimal_field(fields, 1) {
        Ok(v) => v,
        Err(e) => {
            return Err(e);
        },
    };
    let transducer_offset = match pick_decimal_field(fields, 2) {
        Ok(v) => v,
        Err(e) => {
            return Err(e);
        },
    };
    Ok(
        ParsedMessage::Dpt(
            DptData {
                depth_relative_to_transducer,
                transducer_offset,
            },
        ),
    )
}

} // verus!
