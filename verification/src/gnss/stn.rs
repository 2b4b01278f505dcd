//! STN: multiple data id.

use crate::ParsedMessage;
use crate::error::ParseError;
use crate::fields::{field_error_text, number_field_valid, pick_u8_field, u8_field};
use crate::gnss::NavigationSystem;
use crate::text::{all_ascii, field_or_empty, views};
use vstd::prelude::*;

verus! {

/// Multiple data id: STN.
#[derive(Clone, Debug, PartialEq)]
pub struct StnData {
    /// The navigation system that the talker tells.
    pub source: NavigationSystem,
    /// Talker id number, 0 to 99.
    pub talker_id: Option<u8>,
}

/// The message of the error that decoding an STN sentence ends in, if it
/// ends in one: that of the first field that cannot be read.
pub open spec fn failure(fields: Seq<Seq<char>>) -> Option<Seq<char>> {
    if !number_field_valid(fields, 1, 255) {
        Some(field_error_text(1, field_or_empty(fields, 1)))
    } else {
        None
    }
}

/// The record that the fields of an STN sentence hold.
pub open spec fn record(fields: Seq<Seq<char>>, nav_system: NavigationSystem) -> StnData {
    StnData {
        source: nav_system,
        talker_id: u8_field(fields, 1),
    }
}

/// Whether `r` is what decoding an STN sentence gives.
pub open spec fn decodes(
    fields: Seq<Seq<char>>,
    nav_system: NavigationSystem,
    r: Result<ParsedMessage, ParseError>,
) -> bool {
    match failure(fields) {
        Some(text) => {
            &&& r is Err
            &&& r.unwrap_err() is InvalidSentence
            &&& r.unwrap_err().text() == text
        },
        None => r == Ok::<ParsedMessage, ParseError>(
            ParsedMessage::Stn(record(fields, nav_system)),
        ),
    }
}

/// Decodes an STN sentence from its fields.
pub fn handle(
    fields: &Vec<String>,
    nav_system: NavigationSystem,
) -> (r: Result<ParsedMessage, ParseError>)
    requires
        all_ascii(fields@),
    ensures
        decodes(views(fields@), nav_system, r),
{
    let talker_id = match pick_u8_field(fields, 1) {
        Ok(v) => v,
        Err(e) => {
            return Err(e);
        },
    };
    Ok(
        ParsedMessage::Stn(
            StnData {
                source: nav_system,
                talker_id,
            },
        ),
    )
}

} // verus!
