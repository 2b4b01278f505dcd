//! AIS type 9: position report of a search and rescue aircraft.

use crate::ParsedMessage;
use crate::ais::Station;
use crate::bitseq::{bit_seq, BitSequence};
use crate::error::ParseError;
use crate::util::{
    bits_signed_value, bits_value, flag, pick_flag, pick_i32, pick_u16, pick_u32, pick_u8,
};
use vstd::prelude::*;

verus! {

/// A position report of a search and rescue aircraft: AIS type 9.
#[derive(Clone, Debug, PartialEq, Default)]
pub struct StandardSarAircraftPositionReport {
    /// True for a message of the own vessel, false for one of another.
    pub own_vessel: bool,
    /// The kind of AIS station.
    pub station: Station,
    /// User id, 30 bits.
    pub mmsi: u32,
    /// Altitude in metres.
    pub altitude: Option<u16>,
    /// Speed over ground in knots.
    pub sog_knots: Option<u16>,
    /// True for a position accurate to 10 m, false for less.
    pub high_position_accuracy: bool,
    /// Latitude, in 1/10000 of a minute of arc, north positive.
    pub latitude_min10000: Option<i32>,
    /// Longitude, in 1/10000 of a minute of arc, east positive.
    pub longitude_min10000: Option<i32>,
    /// Course over ground, in tenths of a degree.
    pub cog10: Option<u32>,
    /// The seconds field of the UTC time stamp, 6 bits.
    pub timestamp_seconds: u8,
    /// Bits kept for regional use.
    pub regional: u8,
    /// True where the data terminal is ready.
    pub dte: bool,
    /// True for assigned mode.
    pub assigned: bool,
    /// True where receiver autonomous integrity monitoring is in use.
    pub raim_flag: bool,
    /// The communication state of the radio.
    pub radio_status: u32,
}

/// The aircraft position report that the bits of a type 9 message hold.
pub open spec fn sar_aircraft_report(
    bits: Seq<bool>,
    station: Station,
    own_vessel: bool,
) -> StandardSarAircraftPositionReport {
    let altitude = bits_value(bits, 38, 12) as u16;
    let sog = bits_value(bits, 50, 10) as u16;
    let lat = bits_signed_value(bits, 89, 27) as i32;
    let lon = bits_signed_value(bits, 61, 28) as i32;
    let cog = bits_value(bits, 116, 12) as u32;
    let dte_bit = flag(bits, 142);
    let mmsi = bits_value(bits, 8, 30) as u32;
    let high_position_accuracy = flag(bits, 60);
    let timestamp_seconds = bits_value(bits, 128, 6) as u8;
    let regional = bits_value(bits, 134, 8) as u8;
    let assigned = flag(bits, 146);
    let raim_flag = flag(bits, 147);
    let radio_status = bits_value(bits, 148, 20) as u32;
    StandardSarAircraftPositionReport {
        own_vessel,
        station,
        mmsi,
        altitude: if altitude != 4095 {
            Some(altitude)
        } else {
            None
        },
        sog_knots: if sog != 1023 {
            Some(sog)
        } else {
            None
        },
        high_position_accuracy,
        latitude_min10000: if lat != 0x3412140 {
            Some(lat)
        } else {
            None
        },
        longitude_min10000: if lon != 0x6791AC0 {
            Some(lon)
        } else {
            None
        },
        cog10: if cog != 0xE10 {
            Some(cog)
        } else {
            None
        },
        timestamp_seconds,
        regional,
        dte: !dte_bit,
        assigned,
        raim_flag,
        radio_status,
    }
}

/// Whether `r` is what decoding a type 9 message of these bits gives.
pub open spec fn decodes(
    bits: Seq<bool>,
    station: Station,
    own_vessel: bool,
    r: Result<ParsedMessage, ParseError>,
) -> bool {
    r == Ok::<ParsedMessage, ParseError>(
        ParsedMessage::StandardSarAircraftPositionReport(
            sar_aircraft_report(bits, station, own_vessel),
        ),
    )
}

/// Decodes a position report of a search and rescue aircraft.
pub fn handle(
    bv: &BitSequence,
    station: Station,
    own_vessel: bool,
) -> (r: Result<ParsedMessage, ParseError>)
    ensures
        decodes(bit_seq(bv), station, own_vessel, r),
{
    let altitude: u16 = pick_u16(bv, 38, 12);
    let sog: u16 = pick_u16(bv, 50, 10);
    let lat: i32 = pick_i32(bv, 89, 27);
    let lon: i32 = pick_i32(bv, 61, 28);
    let cog: u32 = pick_u32(bv, 116, 12);
    let dte_bit: bool = pick_flag(bv, 142);
    let mmsi: u32 = pick_u32(bv, 8, 30);
    let high_position_accuracy: bool = pick_flag(bv, 60);
    let timestamp_seconds: u8 = pick_u8(bv, 128, 6);
    let regional: u8 = pick_u8(bv, 134, 8);
    let assigned: bool = pick_flag(bv, 146);
    let raim_flag: bool = pick_flag(bv, 147);
    let radio_status: u32 = pick_u32(bv, 148, 20);
    Ok(
        ParsedMessage::StandardSarAircraftPositionReport(
            StandardSarAircraftPositionReport {
                own_vessel,
                station,
                mmsi,
                altitude: if altitude != 4095 {
                    Some(altitude)
                } else {
                    None
                },
                sog_knots: if sog != 1023 {
                    Some(sog)
                } else {
                    None
                },
                high_position_accuracy,
                latitude_min10000: if lat != 0x3412140 {
                    Some(lat)
                } else {
                    None
                },
                longitude_min10000: if lon != 0x6791AC0 {
                    Some(lon)
                } else {
                    None
                },
                cog10: if cog != 0xE10 {
                    Some(cog)
                } else {
                    None
                },
                timestamp_seconds,
                regional,
                dte: !dte_bit,
                assigned,
                raim_flag,
                radio_status,
            },
        ),
    )
}

} // verus!
