//! RMC: recommended minimum navigation data.

use crate::ParsedMessage;
use crate::datetime::UtcDateTime;
use crate::decimal::Decimal;
use crate::error::ParseError;
use crate::fields::{
    choice_field, choice_field_valid, decimal_field, decimal_field_valid, field_error_text,
    pick_choice_field, pick_decimal_field,
};
use crate::gnss::NavigationSystem;
use crate::position::{
    latitude_error_text, latitude_field, latitude_field_valid, longitude_error_text,
    longitude_field, longitude_field_valid, pick_latitude_field, pick_longitude_field, Coordinate,
};
use crate::text::{all_ascii, field, field_or_empty, is_char, push_text, views};
use crate::times::{parse_yymmdd_hhmmss, yymmdd_hhmmss_of};
use vstd::prelude::*;
use vstd::string::*;

verus! {

/// Recommended minimum navigation data: RMC.
#[derive(Clone, Debug, PartialEq)]
pub struct RmcData {
    /// The navigation system that the talker tells.
    pub source: NavigationSystem,
    /// UTC date and time of the fix.
    pub timestamp: Option<UtcDateTime>,
    /// True where the receiver is active, false where it warns.
    pub status_active: Option<bool>,
    /// Latitude.
    pub latitude: Option<Coordinate>,
    /// Longitude.
    pub longitude: Option<Coordinate>,
    /// Speed over ground in knots.
    pub speed_knots: Option<Decimal>,
    /// Course over ground, degrees true.
    pub bearing: Option<Decimal>,
    /// Magnetic variation in degrees, west negative.
    pub variation: Option<Decimal>,
}

/// Whether the side of the magnetic variation can be read: where a
/// variation is given, its side must be `E` or `W`.
pub open spec fn variation_side_valid(fields: Seq<Seq<char>>) -> bool {
    decimal_field(fields, 10) is Some ==> field_or_empty(fields, 11) == seq!['E']
        || field_or_empty(fields, 11) == seq!['W']
}

/// The magnetic variation: the number in field 10, with the other sign
/// where field 11 is `W`.
pub open spec fn variation(fields: Seq<Seq<char>>) -> Option<Decimal> {
    match decimal_field(fields, 10) {
        Some(d) => Some(
            if field_or_empty(fields, 11) == seq!['W'] {
                Decimal { negative: !d.negative, digits: d.digits, scale: d.scale }
            } else {
                d
            },
        ),
        None => None,
    }
}

/// The message of the error that decoding an RMC sentence ends in, if it
/// ends in one: that of the first field that cannot be read.
pub open spec fn failure(fields: Seq<Seq<char>>) -> Option<Seq<char>> {
    if !choice_field_valid(fields, 2, 'A', 'V') {
        Some("Invalid RMC navigation receiver status: "@ + field_or_empty(fields, 2))
    } else if !latitude_field_valid(fields, 3) {
        Some(latitude_error_text(field_or_empty(fields, 3)))
    } else if !longitude_field_valid(fields, 5) {
        Some(longitude_error_text(field_or_empty(fields, 5)))
    } else if !decimal_field_valid(fields, 7) {
        Some(field_error_text(7, field_or_empty(fields, 7)))
    } else if !decimal_field_valid(fields, 8) {
        Some(field_error_text(8, field_or_empty(fields, 8)))
    } else if !decimal_field_valid(fields, 10) {
        Some(field_error_text(10, field_or_empty(fields, 10)))
    } else if !variation_side_valid(fields) {
        Some("Invalid RMC variation side: "@ + field_or_empty(fields, 11))
    } else {
        None
    }
}

/// The record that the fields of an RMC sentence hold.
pub open spec fn record(fields: Seq<Seq<char>>, nav_system: NavigationSystem) -> RmcData {
    RmcData {
        source: nav_system,
        timestamp: yymmdd_hhmmss_of(field_or_empty(fields, 9), field_or_empty(fields, 1)),
        status_active: choice_field(fields, 2, 'A'),
        latitude: latitude_field(fields, 3),
        longitude: longitude_field(fields, 5),
        speed_knots: decimal_field(fields, 7),
        bearing: decimal_field(fields, 8),
        variation: variation(fields),
    }
}

/// Whether `r` is what decoding an RMC sentence gives.
pub open spec fn decodes(
    fields: Seq<Seq<char>>,
    nav_system: NavigationSystem,
    r: Result<ParsedMessage, ParseError>,
) -> bool {
    match failure(fields) {
        Some(text) => {
            &&& r is Err
            &&& r.unwrap_err() is InvalidSentence
            &&& r.unwrap_err().text() == text
        },
        None => r == Ok::<ParsedMessage, ParseError>(
            ParsedMessage::Rmc(record(fields, nav_system)),
        ),
    }
}

/// Decodes an RMC sentence from its fields.
pub fn handle(
    fields: &Vec<String>,
    nav_system: NavigationSystem,
) -> (r: Result<ParsedMessage, ParseError>)
    requires
        all_ascii(fields@),
    ensures
        decodes(views(fields@), nav_system, r),
{
    let timestamp = parse_yymmdd_hhmmss(field(fields, 9), field(fields, 1)).ok();
    let status_active = match pick_choice_field(
        fields,
        2,
        'A',
        'V',
        "Invalid RMC navigation receiver status: ",
    ) {
        Ok(v) => v,
        Err(e) => {
            return Err(e);
        },
    };
    let latitude = match pick_latitude_field(fields, 3) {
        Ok(v) => v,
        Err(e) => {
            return Err(e);
        },
    };
    let longitude = match pick_longitude_field(fields, 5) {
        Ok(v) => v,
        Err(e) => {
            return Err(e);
        },
    };
    let speed_knots = match pick_decimal_field(fields, 7) {
        Ok(v) => v,
        Err(e) => {
            return Err(e);
        },
    };
    let bearing = match pick_decimal_field(fields, 8) {
        Ok(v) => v,
        Err(e) => {
            return Err(e);
        },
    };
    let value = match pick_decimal_field(fields, 10) {
        Ok(v) => v,
        Err(e) => {
            return Err(e);
        },
    };
    let variation = match value {
        Some(d) => {
            let side: &str = field(fields, 11);
            if is_char(side, 'E') {
                Some(d)
            } else if is_char(side, 'W') {
                Some(d.negated())
            } else {
                let mut msg: String = String::from_str("Invalid RMC variation side: ");
                push_text(&mut msg, side);
                return Err(ParseError::InvalidSentence(msg));
            }
        },
        None => None,
    };
    proof {
        assert(seq!['E'][0] != seq!['W'][0]);
    }
    Ok(
        ParsedMessage::Rmc(
            RmcData {
                source: nav_system,
                timestamp,
                status_active,
                latitude,
                longitude,
                speed_knots,
                bearing,
                variation,
            },
        ),
    )
}

} // verus!
