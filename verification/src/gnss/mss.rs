//! MSS: signal of a beacon receiver.

use crate::ParsedMessage;
use crate::decimal::Decimal;
use crate::error::ParseError;
use crate::fields::{
    decimal_field, decimal_field_valid, field_error_text, number_field_valid, pick_decimal_field,
    pick_u32_field, pick_u8_field, u32_field, u8_field,
};
use crate::gnss::NavigationSystem;
use crate::text::{all_ascii, field_or_empty, views};
use vstd::prelude::*;

verus! {

/// Signal of a beacon receiver: MSS.
#[derive(Clone, Debug, PartialEq)]
pub struct MssData {
    /// The navigation system that the talker tells.
    pub source: NavigationSystem,
    /// Signal strength, in dB.
    pub ss: Option<u8>,
    /// Signal to noise ratio, in dB.
    pub snr: Option<u8>,
    /// Beacon frequency, in kHz.
    pub frequency: Option<Decimal>,
    /// Beacon bit rate, in bits a second.
    pub bit_rate: Option<u32>,
    /// Channel number.
    pub channel: Option<u32>,
}

/// The message of the error that decoding an MSS sentence ends in, if it
/// ends in one: that of the first field that cannot be read.
pub open spec fn failure(fields: Seq<Seq<char>>) -> Option<Seq<char>> {
    if !number_field_valid(fields, 1, 255) {
        Some(field_error_text(1, field_or_empty(fields, 1)))
    } else if !number_field_valid(fields, 2, 255) {
        Some(field_error_text(2, field_or_empty(fields, 2)))
    } else if !decimal_field_valid(fields, 3) {
        Some(field_error_text(3, field_or_empty(fields, 3)))
    } else if !number_field_valid(fields, 4, 0xffff_ffff) {
        Some(field_error_text(4, field_or_empty(fields, 4)))
    } else if !number_field_valid(fields, 5, 0xffff_ffff) {
        Some(field_error_text(5, field_or_empty(fields, 5)))
    } else {
        None
    }
}

/// The record that the fields of an MSS sentence hold.
pub open spec fn record(fields: Seq<Seq<char>>, nav_system: NavigationSystem) -> MssData {
    MssData {
        source: nav_system,
        ss: u8_field(fields, 1),
        snr: u8_field(fields, 2),
        frequency: decimal_field(fields, 3),
        bit_rate: u32_field(fields, 4),
        channel: u32_field(fields, 5),
    }
}

/// Whether `r` is what decoding an MSS sentence gives.
pub open spec fn decodes(
    fields: Seq<Seq<char>>,
    nav_system: NavigationSystem,
    r: Result<ParsedMessage, ParseError>,
) -> bool {
    match failure(fields) {
        Some(text) => {
            &&& r is Err
            &&& r.unwrap_err() is InvalidSentence
            &&& r.unwrap_err().text() == text
        },
        None => r == Ok::<ParsedMessage, ParseError>(
            ParsedMessage::Mss(record(fields, nav_system)),
        ),
    }
}

/// Decodes an MSS sentence from its fields.
pub fn handle(
    fields: &Vec<String>,
    nav_system: NavigationSystem,
) -> (r: Result<ParsedMessage, ParseError>)
    requires
        all_ascii(fields@),
    ensures
        decodes(views(fields@), nav_system, r),
{
    let ss = match pick_u8_field(fields, 1) {
        Ok(v) => v,
        Err(e) => {
            return Err(e);
        },
    };
    let snr = match pick_u8_field(fields, 2) {
        Ok(v) => v,
        Err(e) => {
            return Err(e);
        },
    };
    let frequency = match pick_decimal_field(fields, 3) {
        Ok(v) => v,
        Err(e) => {
            return Err(e);
        },
    };
    let bit_rate = match pick_u32_field(fields, 4) {
        Ok(v) => v,
        Err(e) => {
            return Err(e);
        },
    };
    let channel = match pick_u32_field(fields, 5) {
        Ok(v) => v,
        Err(e) => {
            return Err(e);
        },
    };
    Ok(
        ParsedMessage::Mss(
            MssData {
                source: nav_system,
                ss,
                snr,
                frequency,
                bit_rate,
                channel,
            },
        ),
    )
}

} // verus!
