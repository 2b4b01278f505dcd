//! DTM: datum reference.

use crate::ParsedMessage;
use crate::decimal::Decimal;
use crate::error::ParseError;
use crate::fields::{
    decimal_field, decimal_field_valid, field_error_text, pick_decimal_field, pick_string_field,
    string_field,
};
use crate::gnss::NavigationSystem;
use crate::position::{offset_error, offset_of, parse_latitude_m_m, parse_longitude_m_m};
use crate::text::{all_ascii, field, field_or_empty, text_view, views};
use vstd::prelude::*;

verus! {

/// Datum reference: DTM.
#[derive(Clone, Debug, PartialEq)]
pub struct DtmData {
    /// The navigation system that the talker tells.
    pub source: NavigationSystem,
    /// Code of the local datum.
    pub datum_id: Option<String>,
    /// Code of the subdivision of the local datum.
    pub datum_sub_id: Option<String>,
    /// Offset of latitude in minutes, south negative.
    pub lat_offset: Option<Decimal>,
    /// Offset of longitude in minutes, west negative.
    pub lon_offset: Option<Decimal>,
    /// Offset of altitude in metres.
    pub alt_offset: Option<Decimal>,
    /// Code of the reference datum.
    pub ref_datum_id: Option<String>,
}

/// The message of the error that decoding a DTM sentence ends in, if it
/// ends in one: that of the first field that cannot be read.
pub open spec fn failure(fields: Seq<Seq<char>>) -> Option<Seq<char>> {
    if offset_error(field_or_empty(fields, 3), field_or_empty(fields, 4), 'N', 'S') is Some {
        offset_error(field_or_empty(fields, 3), field_or_empty(fields, 4), 'N', 'S')
    } else if offset_error(field_or_empty(fields, 5), field_or_empty(fields, 6), 'E', 'W')
        is Some {
        offset_error(field_or_empty(fields, 5), field_or_empty(fields, 6), 'E', 'W')
    } else if !decimal_field_valid(fields, 7) {
        Some(field_error_text(7, field_or_empty(fields, 7)))
    } else {
        None
    }
}

/// Whether `m` is the record that the fields of a DTM sentence hold.
pub open spec fn is_record(
    fields: Seq<Seq<char>>,
    nav_system: NavigationSystem,
    m: DtmData,
) -> bool {
    &&& m.source == nav_system
    &&& text_view(m.datum_id) == string_field(fields, 1)
    &&& text_view(m.datum_sub_id) == string_field(fields, 2)
    &&& m.lat_offset == offset_of(field_or_empty(fields, 3), field_or_empty(fields, 4), 'S')
    &&& m.lon_offset == offset_of(field_or_empty(fields, 5), field_or_empty(fields, 6), 'W')
    &&& m.alt_offset == decimal_field(fields, 7)
    &&& text_view(m.ref_datum_id) == string_field(fields, 8)
}

/// Whether `r` is what decoding a DTM sentence gives.
pub open spec fn decodes(
    fields: Seq<Seq<char>>,
    nav_system: NavigationSystem,
    r: Result<ParsedMessage, ParseError>,
) -> bool {
    match failure(fields) {
        Some(text) => {
            &&& r is Err
            &&& r.unwrap_err() is InvalidSentence
            &&& r.unwrap_err().text() == text
        },
        None => match r {
            Ok(ParsedMessage::Dtm(m)) => is_record(fields, nav_system, m),
            _ => false,
        },
    }
}

/// Decodes a DTM sentence from its fields.
pub fn handle(
    fields: &Vec<String>,
    nav_system: NavigationSystem,
) -> (r: Result<ParsedMessage, ParseError>)
    requires
        all_ascii(fields@),
    ensures
        decodes(views(fields@), nav_system, r),
{
    let datum_id = pick_string_field(fields, 1);
    let datum_sub_id = pick_string_field(fields, 2);
    let lat_offset = match parse_latitude_m_m(field(fields, 3), field(fields, 4)) {
        Ok(v) => v,
        Err(e) => {
            return Err(e);
        },
    };
    let lon_offset = match parse_longitude_m_m(field(fields, 5), field(fields, 6)) {
        Ok(v) => v,
        Err(e) => {
            return Err(e);
        },
    };
    let alt_offset = match pick_decimal_field(fields, 7) {
        Ok(v) => v,
        Err(e) => {
            return Err(e);
        },
    };
    let ref_datum_id = pick_string_field(fields, 8);
    Ok(
        ParsedMessage::Dtm(
            DtmData {
                source: nav_system,
                datum_id,
                datum_sub_id,
                lat_offset,
                lon_offset,
                alt_offset,
                ref_datum_id,
            },
        ),
    )
}

} // verus!
