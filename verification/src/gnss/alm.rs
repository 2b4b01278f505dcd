//! ALM: almanac data of a satellite.

use crate::ParsedMessage;
use crate::error::ParseError;
use crate::fields::{
    hex_field_error_text, hex_field_valid, hex_u16_field, hex_u32_field, hex_u8_field,
    pick_hex_u16_field, pick_hex_u32_field, pick_hex_u8_field,
};
use crate::gnss::NavigationSystem;
use crate::text::{all_ascii, field_or_empty, views};
use vstd::prelude::*;

verus! {

/// Almanac data of a satellite: ALM. The fields are sent in hexadecimal.
#[derive(Clone, Debug, PartialEq)]
pub struct AlmData {
    /// The navigation system that the talker tells.
    pub source: NavigationSystem,
    /// Satellite PRN number.
    pub prn: Option<u8>,
    /// GPS week number, modulo 1024.
    pub week_number: Option<u16>,
    /// Health of the satellite.
    pub health_bits: Option<u8>,
    /// Eccentricity.
    pub eccentricity: Option<u16>,
    /// Reference time of the almanac.
    pub reference_time: Option<u8>,
    /// Inclination angle.
    pub sigma: Option<u16>,
    /// Rate of right ascension.
    pub omega_dot: Option<u16>,
    /// Root of the semi-major axis.
    pub root_a: Option<u32>,
    /// Argument of perigee.
    pub omega: Option<u32>,
    /// Longitude of the ascension node.
    pub omega_o: Option<u32>,
    /// Mean anomaly.
    pub mo: Option<u32>,
    /// Clock parameter f0.
    pub af0: Option<u16>,
    /// Clock parameter f1.
    pub af1: Option<u16>,
}

/// The message of the error that decoding an ALM sentence ends in, if it
/// ends in one: that of the first field that cannot be read.
pub open spec fn failure(fields: Seq<Seq<char>>) -> Option<Seq<char>> {
    if !hex_field_valid(fields, 3, 255) {
        Some(hex_field_error_text(3, field_or_empty(fields, 3)))
    } else if !hex_field_valid(fields, 4, 65535) {
        Some(hex_field_error_text(4, field_or_empty(fields, 4)))
    } else if !hex_field_valid(fields, 5, 255) {
        Some(hex_field_error_text(5, field_or_empty(fields, 5)))
    } else if !hex_field_valid(fields, 6, 65535) {
        Some(hex_field_error_text(6, field_or_empty(fields, 6)))
    } else if !hex_field_valid(fields, 7, 255) {
        Some(hex_field_error_text(7, field_or_empty(fields, 7)))
    } else if !hex_field_valid(fields, 8, 65535) {
        Some(hex_field_error_text(8, field_or_empty(fields, 8)))
    } else if !hex_field_valid(fields, 9, 65535) {
        Some(hex_field_error_text(9, field_or_empty(fields, 9)))
    } else if !hex_field_valid(fields, 10, 0xffff_ffff) {
        Some(hex_field_error_text(10, field_or_empty(fields, 10)))
    } else if !hex_field_valid(fields, 11, 0xffff_ffff) {
        Some(hex_field_error_text(11, field_or_empty(fields, 11)))
    } else if !hex_field_valid(fields, 12, 0xffff_ffff) {
        Some(hex_field_error_text(12, field_or_empty(fields, 12)))
    } else if !hex_field_valid(fields, 13, 0xffff_ffff) {
        Some(hex_field_error_text(13, field_or_empty(fields, 13)))
    } else if !hex_field_valid(fields, 14, 65535) {
        Some(hex_field_error_text(14, field_or_empty(fields, 14)))
    } else if !hex_field_valid(fields, 15, 65535) {
        Some(hex_field_error_text(15, field_or_empty(fields, 15)))
    } else {
        None
    }
}

/// The record that the fields of an ALM sentence hold.
pub open spec fn record(fields: Seq<Seq<char>>, nav_system: NavigationSystem) -> AlmData {
    AlmData {
        source: nav_system,
        prn: hex_u8_field(fields, 3),
        week_number: match hex_u16_field(fields, 4) {
            Some(week) => Some(week % 1024),
            None => None,
        },
        health_bits: hex_u8_field(fields, 5),
        eccentricity: hex_u16_field(fields, 6),
        reference_time: hex_u8_field(fields, 7),
        sigma: hex_u16_field(fields, 8),
        omega_dot: hex_u16_field(fields, 9),
        root_a: hex_u32_field(fields, 10),
        omega: hex_u32_field(fields, 11),
        omega_o: hex_u32_field(fields, 12),
        mo: hex_u32_field(fields, 13),
        af0: hex_u16_field(fields, 14),
        af1: hex_u16_field(fields, 15),
    }
}

/// Whether `r` is what decoding an ALM sentence gives.
pub open spec fn decodes(
    fields: Seq<Seq<char>>,
    nav_system: NavigationSystem,
    r: Result<ParsedMessage, ParseError>,
) -> bool {
    match failure(fields) {
        Some(text) => {
            &&& r is Err
            &&& r.unwrap_err() is InvalidSentence
            &&& r.unwrap_err().text() == text
        },
        None => r == Ok::<ParsedMessage, ParseError>(
            ParsedMessage::Alm(record(fields, nav_system)),
        ),
    }
}

/// Decodes an ALM sentence from its fields.
pub fn handle(
    fields: &Vec<String>,
    nav_system: NavigationSystem,
) -> (r: Result<ParsedMessage, ParseError>)
    requires
        all_ascii(fields@),
    ensures
        decodes(views(fields@), nav_system, r),
{
    let prn = match pick_hex_u8_field(fields, 3) {
        Ok(v) => v,
        Err(e) => {
            return Err(e);
        },
    };
    let week = match pick_hex_u16_field(fields, 4) {
        Ok(v) => v,
        Err(e) => {
            return Err(e);
        },
    };
    let health_bits = match pick_hex_u8_field(fields, 5) {
        Ok(v) => v,
        Err(e) => {
            return Err(e);
        },
    };
    let eccentricity = match pick_hex_u16_field(fields, 6) {
        Ok(v) => v,
        Err(e) => {
            return Err(e);
        },
    };
    let reference_time = match pick_hex_u8_field(fields, 7) {
        Ok(v) => v,
        Err(e) => {
            return Err(e);
        },
    };
    let sigma = match pick_hex_u16_field(fields, 8) {
        Ok(v) => v,
        Err(e) => {
            return Err(e);
        },
    };
    let omega_dot = match pick_hex_u16_field(fields, 9) {
        Ok(v) => v,
        Err(e) => {
            return Err(e);
        },
    };
    let root_a = match pick_hex_u32_field(fields, 10) {
        Ok(v) => v,
        Err(e) => {
            return Err(e);
        },
    };
    let omega = match pick_hex_u32_field(fields, 11) {
        Ok(v) => v,
        Err(e) => {
            return Err(e);
        },
    };
    let omega_o = match pick_hex_u32_field(fields, 12) {
        Ok(v) => v,
        Err(e) => {
            return Err(e);
        },
    };
    let mo = match pick_hex_u32_field(fields, 13) {
        Ok(v) => v,
        Err(e) => {
            return Err(e);
        },
    };
    let af0 = match pick_hex_u16_field(fields, 14) {
        Ok(v) => v,
        Err(e) => {
            return Err(e);
        },
    };
    let af1 = match pick_hex_u16_field(fields, 15) {
        Ok(v) => v,
        Err(e) => {
            return Err(e);
        },
    };
    Ok(
        ParsedMessage::Alm(
            AlmData {
                source: nav_system,
                prn,
                week_number: match week {
                    Some(week) => Some(week % 1024),
                    None => None,
                },
                health_bits,
                eccentricity,
                reference_time,
                sigma,
                omega_dot,
                root_a,
                omega,
                omega_o,
                mo,
                af0,
                af1,
            },
        ),
    )
}

} // verus!
