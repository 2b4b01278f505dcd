//! GLL: geographic position, latitude and longitude.

use crate::ParsedMessage;
use crate::datetime::UtcDateTime;
use crate::error::ParseError;
use crate::gnss::{faa_field, pick_faa_field, FaaMode, NavigationSystem};
use crate::position::{
    latitude_error_text, latitude_field, latitude_field_valid, longitude_error_text,
    longitude_field, longitude_field_valid, pick_latitude_field, pick_longitude_field, Coordinate,
};
use crate::text::{all_ascii, field, field_or_empty, is_char, views};
use crate::times::{pick_time_field, time_field};
use vstd::prelude::*;

verus! {

/// Geographic position: GLL.
#[derive(Clone, Debug, PartialEq)]
pub struct GllData {
    /// The navigation system that the talker tells.
    pub source: NavigationSystem,
    /// Latitude.
    pub latitude: Option<Coordinate>,
    /// Longitude.
    pub longitude: Option<Coordinate>,
    /// UTC time of the position, on the first day of the year 2000.
    pub timestamp: Option<UtcDateTime>,
    /// True where the data are valid, false where they are not.
    pub data_valid: Option<bool>,
    /// FAA mode.
    pub faa_mode: Option<FaaMode>,
}

/// What a validity field says: true for `A`, false for `V`, nothing for
/// anything else.
pub open spec fn validity(fields: Seq<Seq<char>>, num: int) -> Option<bool> {
    let s = field_or_empty(fields, num);
    if s == seq!['A'] {
        Some(true)
    } else if s == seq!['V'] {
        Some(false)
    } else {
        None
    }
}

/// Reads a validity field.
pub fn pick_validity(fields: &Vec<String>, num: usize) -> (r: Option<bool>)
    requires
        all_ascii(fields@),
    ensures
        r == validity(views(fields@), num as int),
{
    let s: &str = field(fields, num);
    if is_char(s, 'A') {
        Some(true)
    } else if is_char(s, 'V') {
        Some(false)
    } else {
        None
    }
}

/// The message of the error that decoding a GLL sentence ends in, if it
/// ends in one: that of the first field that cannot be read.
pub open spec fn failure(fields: Seq<Seq<char>>) -> Option<Seq<char>> {
    if !latitude_field_valid(fields, 1) {
        Some(latitude_error_text(field_or_empty(fields, 1)))
    } else if !longitude_field_valid(fields, 3) {
        Some(longitude_error_text(field_or_empty(fields, 3)))
    } else {
        None
    }
}

/// The record that the fields of a GLL sentence hold.
pub open spec fn record(fields: Seq<Seq<char>>, nav_system: NavigationSystem) -> GllData {
    GllData {
        source: nav_system,
        latitude: latitude_field(fields, 1),
        longitude: longitude_field(fields, 3),
        timestamp: time_field(fields, 5),
        data_valid: validity(fields, 6),
        faa_mode: faa_field(fields, 7),
    }
}

/// Whether `r` is what decoding a GLL sentence gives.
pub open spec fn decodes(
    fields: Seq<Seq<char>>,
    nav_system: NavigationSystem,
    r: Result<ParsedMessage, ParseError>,
) -> bool {
    match failure(fields) {
        Some(text) => {
            &&& r is Err
            &&& r.unwrap_err() is InvalidSentence
            &&& r.unwrap_err().text() == text
        },
        None => r == Ok::<ParsedMessage, ParseError>(
            ParsedMessage::Gll(record(fields, nav_system)),
        ),
    }
}

/// Decodes a GLL sentence from its fields.
pub fn handle(
    fields: &Vec<String>,
    nav_system: NavigationSystem,
) -> (r: Result<ParsedMessage, ParseError>)
    requires
        all_ascii(fields@),
    ensures
        decodes(views(fields@), nav_system, r),
{
    let latitude = match pick_latitude_field(fields, 1) {
        Ok(v) => v,
        Err(e) => {
            return Err(e);
        },
    };
    let longitude = match pick_longitude_field(fields, 3) {
        Ok(v) => v,
        Err(e) => {
            return Err(e);
        },
    };
    let timestamp = pick_time_field(fields, 5);
    let data_valid = pick_validity(fields, 6);
    let faa_mode = pick_faa_field(fields, 7);
    Ok(
        ParsedMessage::Gll(
            GllData {
                source: nav_system,
                latitude,
                longitude,
                timestamp,
                data_valid,
                faa_mode,
            },
        ),
    )
}

} // verus!
