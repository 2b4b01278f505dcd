//! GGA: time, position and fix data.

use crate::ParsedMessage;
use crate::datetime::UtcDateTime;
use crate::decimal::Decimal;
use crate::error::ParseError;
use crate::fields::{
    decimal_field, decimal_field_valid, field_error_text, number_field_valid, pick_decimal_field,
    pick_u16_field, pick_u8_field, u16_field, u8_field,
};
use crate::gnss::NavigationSystem;
use crate::position::{
    latitude_error_text, latitude_field, latitude_field_valid, longitude_error_text,
    longitude_field, longitude_field_valid, pick_latitude_field, pick_longitude_field, Coordinate,
};
use crate::text::{all_ascii, field_or_empty, views};
use crate::times::{pick_time_field, time_field};
use vstd::prelude::*;

verus! {

/// Time, position and fix data: GGA.
#[derive(Clone, Debug, PartialEq)]
pub struct GgaData {
    /// The navigation system that the talker tells.
    pub source: NavigationSystem,
    /// UTC time of the fix, on the first day of the year 2000.
    pub timestamp: Option<UtcDateTime>,
    /// Latitude.
    pub latitude: Option<Coordinate>,
    /// Longitude.
    pub longitude: Option<Coordinate>,
    /// Quality of the fix.
    pub quality: GgaQualityIndicator,
    /// Number of satellites in use.
    pub satellite_count: Option<u8>,
    /// Horizontal dilution of precision.
    pub hdop: Option<Decimal>,
    /// Altitude above mean sea level, in metres.
    pub altitude: Option<Decimal>,
    /// Height of the geoid above the WGS84 ellipsoid, in metres.
    pub geoid_separation: Option<Decimal>,
    /// Age of the differential GPS data, in seconds.
    pub age_of_dgps: Option<Decimal>,
    /// Id of the differential reference station.
    pub ref_station_id: Option<u16>,
}

/// The quality of a GGA fix.
#[derive(Clone, Copy, Debug, PartialEq, Eq, Structural)]
pub enum GgaQualityIndicator {
    Invalid,
    GpsFix,
    DGpsFix,
    PpsFix,
    RealTimeKinematic,
    RealTimeKinematicFloat,
    DeadReckoning,
    ManualInputMode,
    SimulationMode,
}

impl GgaQualityIndicator {
    /// The variant whose number is `v`.
    pub open spec fn with_value(v: int) -> GgaQualityIndicator {
        choose|s: GgaQualityIndicator| s.value() == v
    }

    /// A variant is the one with its number.
    pub proof fn lemma_with_value(s: GgaQualityIndicator)
        ensures
            GgaQualityIndicator::with_value(s.value() as int) == s,
    {
        let c = GgaQualityIndicator::with_value(s.value() as int);
        assert(s.value() == s.value() as int);
        assert(c.value() == s.value());
    }

    /// The number that the GGA sentence writes the quality as.
    pub open spec fn value(self) -> u8 {
        match self {
            GgaQualityIndicator::Invalid => 0,
            GgaQualityIndicator::GpsFix => 1,
            GgaQualityIndicator::DGpsFix => 2,
            GgaQualityIndicator::PpsFix => 3,
            GgaQualityIndicator::RealTimeKinematic => 4,
            GgaQualityIndicator::RealTimeKinematicFloat => 5,
            GgaQualityIndicator::DeadReckoning => 6,
            GgaQualityIndicator::ManualInputMode => 7,
            GgaQualityIndicator::SimulationMode => 8,
        }
    }

    /// The quality that the number `a` stands for; `Invalid` for a
    /// number above 8.
    pub open spec fn of(a: u8) -> GgaQualityIndicator {
        GgaQualityIndicator::with_value(
            if a <= 8 {
                a as int
            } else {
                0
            },
        )
    }

    /// The quality with the given number; `Invalid` for a number above
    /// 8.
    pub fn new(a: u8) -> (r: GgaQualityIndicator)
        ensures
            r == GgaQualityIndicator::of(a),
            r.value() == (if a <= 8 {
                a
            } else {
                0
            }),
    {
        let r: GgaQualityIndicator = match a {
            0 => GgaQualityIndicator::Invalid,
            1 => GgaQualityIndicator::GpsFix,
            2 => GgaQualityIndicator::DGpsFix,
            3 => GgaQualityIndicator::PpsFix,
            4 => GgaQualityIndicator::RealTimeKinematic,
            5 => GgaQualityIndicator::RealTimeKinematicFloat,
            6 => GgaQualityIndicator::DeadReckoning,
            7 => GgaQualityIndicator::ManualInputMode,
            8 => GgaQualityIndicator::SimulationMode,
            _ => GgaQualityIndicator::Invalid,
        };
        proof {
            GgaQualityIndicator::lemma_with_value(r);
        }
        r
    }
}

/// The number in the quality field of a GGA sentence; 0 where the field
/// is empty or missing.
pub open spec fn quality_number(fields: Seq<Seq<char>>) -> u8 {
    match u8_field(fields, 6) {
        Some(q) => q,
        None => 0,
    }
}

/// The message of the error that decoding a GGA sentence ends in, if it
/// ends in one: that of the first field that cannot be read.
pub open spec fn failure(fields: Seq<Seq<char>>) -> Option<Seq<char>> {
    if !latitude_field_valid(fields, 2) {
        Some(latitude_error_text(field_or_empty(fields, 2)))
    } else if !longitude_field_valid(fields, 4) {
        Some(longitude_error_text(field_or_empty(fields, 4)))
    } else if !number_field_valid(fields, 6, 255) {
        Some(field_error_text(6, field_or_empty(fields, 6)))
    } else if !number_field_valid(fields, 7, 255) {
        Some(field_error_text(7, field_or_empty(fields, 7)))
    } else if !decimal_field_valid(fields, 8) {
        Some(field_error_text(8, field_or_empty(fields, 8)))
    } else if !decimal_field_valid(fields, 9) {
        Some(field_error_text(9, field_or_empty(fields, 9)))
    } else if !decimal_field_valid(fields, 11) {
        Some(field_error_text(11, field_or_empty(fields, 11)))
    } else if !decimal_field_valid(fields, 13) {
        Some(field_error_text(13, field_or_empty(fields, 13)))
    } else if !number_field_valid(fields, 14, 65535) {
        Some(field_error_text(14, field_or_empty(fields, 14)))
    } else {
        None
    }
}

/// The record that the fields of a GGA sentence hold.
pub open spec fn record(fields: Seq<Seq<char>>, nav_system: NavigationSystem) -> GgaData {
    GgaData {
        source: nav_system,
        timestamp: time_field(fields, 1),
        latitude: latitude_field(fields, 2),
        longitude: longitude_field(fields, 4),
        quality: GgaQualityIndicator::of(quality_number(fields)),
        satellite_count: u8_field(fields, 7),
        hdop: decimal_field(fields, 8),
        altitude: decimal_field(fields, 9),
        geoid_separation: decimal_field(fields, 11),
        age_of_dgps: decimal_field(fields, 13),
        ref_station_id: u16_field(fields, 14),
    }
}

/// Whether `r` is what decoding a GGA sentence gives.
pub open spec fn decodes(
    fields: Seq<Seq<char>>,
    nav_system: NavigationSystem,
    r: Result<ParsedMessage, ParseError>,
) -> bool {
    match failure(fields) {
        Some(text) => {
            &&& r is Err
            &&& r.unwrap_err() is InvalidSentence
            &&& r.unwrap_err().text() == text
        },
        None => r == Ok::<ParsedMessage, ParseError>(
            ParsedMessage::Gga(record(fields, nav_system)),
        ),
    }
}

/// Decodes a GGA sentence from its fields.
pub fn handle(
    fields: &Vec<String>,
    nav_system: NavigationSystem,
) -> (r: Result<ParsedMessage, ParseError>)
    requires
        all_ascii(fields@),
    ensures
        decodes(views(fields@), nav_system, r),
{
    let timestamp = pick_time_field(fields, 1);
    let latitude = match pick_latitude_field(fields, 2) {
        Ok(v) => v,
        Err(e) => {
            return Err(e);
        },
    };
    let longitude = match pick_longitude_field(fields, 4) {
        Ok(v) => v,
        Err(e) => {
            return Err(e);
        },
    };
    let quality = match pick_u8_field(fields, 6) {
        Ok(v) => v,
        Err(e) => {
            return Err(e);
        },
    };
    let satellite_count = match pick_u8_field(fields, 7) {
        Ok(v) => v,
        Err(e) => {
            return Err(e);
        },
    };
    let hdop = match pick_decimal_field(fields, 8) {
        Ok(v) => v,
        Err(e) => {
            return Err(e);
        },
    };
    let altitude = match pick_decimal_field(fields, 9) {
        Ok(v) => v,
        Err(e) => {
            return Err(e);
        },
    };
    let geoid_separation = match pick_decimal_field(fields, 11) {
        Ok(v) => v,
        Err(e) => {
            return Err(e);
        },
    };
    let age_of_dgps = match pick_decimal_field(fields, 13) {
        Ok(v) => v,
        Err(e) => {
            return Err(e);
        },
    };
    let ref_station_id = match pick_u16_field(fields, 14) {
        Ok(v) => v,
        Err(e) => {
            return Err(e);
        },
    };
    Ok(
        ParsedMessage::Gga(
            GgaData {
                source: nav_system,
                timestamp,
                latitude,
                longitude,
                quality: GgaQualityIndicator::new(
                    match quality {
                        Some(q) => q,
                        None => 0,
                    },
                ),
                satellite_count,
                hdop,
                altitude,
                geoid_separation,
                age_of_dgps,
                ref_station_id,
            },
        ),
    )
}

impl GgaQualityIndicator {
    /// What the variant is called in a message.
    pub open spec fn label_text(self) -> Seq<char> {
        match self {
            GgaQualityIndicator::Invalid => "invalid"@,
            GgaQualityIndicator::GpsFix => "GPS fix"@,
            GgaQualityIndicator::DGpsFix => "DGPS fix"@,
            GgaQualityIndicator::PpsFix => "PPS fix"@,
            GgaQualityIndicator::RealTimeKinematic => "Real-Time Kinematic"@,
            GgaQualityIndicator::RealTimeKinematicFloat => "Real-Time Kinematic (floating point)"@,
            GgaQualityIndicator::DeadReckoning => "dead reckoning"@,
            GgaQualityIndicator::ManualInputMode => "manual input mode"@,
            GgaQualityIndicator::SimulationMode => "simulation mode"@,
        }
    }

    /// What the variant is called in a message.
    pub fn label(&self) -> (r: &'static str)
        ensures
            r@ == self.label_text(),
    {
        match self {
            GgaQualityIndicator::Invalid => "invalid",
            GgaQualityIndicator::GpsFix => "GPS fix",
            GgaQualityIndicator::DGpsFix => "DGPS fix",
            GgaQualityIndicator::PpsFix => "PPS fix",
            GgaQualityIndicator::RealTimeKinematic => "Real-Time Kinematic",
            GgaQualityIndicator::RealTimeKinematicFloat => "Real-Time Kinematic (floating point)",
            GgaQualityIndicator::DeadReckoning => "dead reckoning",
            GgaQualityIndicator::ManualInputMode => "manual input mode",
            GgaQualityIndicator::SimulationMode => "simulation mode",
        }
    }
}

} // verus!
