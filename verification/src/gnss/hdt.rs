//! HDT: true heading.

use crate::ParsedMessage;
use crate::decimal::Decimal;
use crate::error::ParseError;
use crate::fields::{decimal_field, decimal_field_valid, field_error_text, pick_decimal_field};
use crate::text::{all_ascii, field_or_empty, views};
use vstd::prelude::*;

verus! {

/// True heading: HDT.
#[derive(Clone, Debug, PartialEq)]
pub struct HdtData {
    /// Heading in degrees true.
    pub heading_true: Option<Decimal>,
}

/// The message of the error that decoding an HDT sentence ends in, if it
/// ends in one: that of the first field that cannot be read.
pub open spec fn failure(fields: Seq<Seq<char>>) -> Option<Seq<char>> {
    if !decimal_field_valid(fields, 1) {
        Some(field_error_text(1, field_or_empty(fields, 1)))
    } else {
        None
    }
}

/// The record that the fields of an HDT sentence hold.
pub open spec fn record(fields: Seq<Seq<char>>) -> HdtData {
    HdtData {
        heading_true: decimal_field(fields, 1),
    }
}

/// Whether `r` is what decoding an HDT sentence gives.
pub open spec fn decodes(fields: Seq<Seq<char>>, r: Result<ParsedMessage, ParseError>) -> bool {
    match failure(fields) {
        Some(text) => {
            &&& r is Err
            &&& r.unwrap_err() is InvalidSentence
            &&& r.unwrap_err().text() == text
        },
        None => r == Ok::<ParsedMessage, ParseError>(ParsedMessage::Hdt(record(fields))),
    }
}

/// Decodes an HDT sentence from its fields.
pub fn handle(fields: &Vec<String>) -> (r: Result<ParsedMessage, ParseError>)
    requires
        all_ascii(fields@),
    ensures
        decodes(views(fields@), r),
{
    let heading_true = match pick_decimal_field(fields, 1) {
        Ok(v) => v,
        Err(e) => {
            return Err(e);
        },
    };
    Ok(
        ParsedMessage::Hdt(
            HdtData {
                heading_true,
            },
        ),
    )
}

} // verus!
