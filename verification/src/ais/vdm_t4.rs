//! AIS type 4: base station report.

use crate::ParsedMessage;
use crate::ais::{PositionFixType, Station};
use crate::bitseq::{bit_seq, BitSequence};
use crate::datetime::{parse_ymdhs, utc_error_text, UtcDateTime};
use crate::error::ParseError;
use crate::util::{bits_signed_value, bits_value, flag, pick_flag, pick_i32, pick_u32, pick_u8};
use vstd::arithmetic::power2::lemma2_to64;
use vstd::prelude::*;

verus! {

/// A base station report, AIS type 4, or a UTC and date response, AIS
/// type 11.
#[derive(Clone, Debug, PartialEq, Default)]
pub struct BaseStationReport {
    /// True for a message of the own vessel, false for one of another.
    pub own_vessel: bool,
    /// The kind of AIS station.
    pub station: Station,
    /// User id, 30 bits.
    pub mmsi: u32,
    /// The UTC time of the report.
    pub timestamp: Option<UtcDateTime>,
    /// True for a position accurate to 10 m, false for less.
    pub high_position_accuracy: bool,
    /// Latitude, in 1/10000 of a minute of arc, north positive.
    pub latitude_min10000: Option<i32>,
    /// Longitude, in 1/10000 of a minute of arc, east positive.
    pub longitude_min10000: Option<i32>,
    /// Type of the electronic position fixing device.
    pub position_fix_type: Option<PositionFixType>,
    /// True where receiver autonomous integrity monitoring is in use.
    pub raim_flag: bool,
    /// The communication state of the radio.
    pub radio_status: u32,
}

/// The time that the bits of a base station report give.
pub open spec fn report_time(bits: Seq<bool>) -> UtcDateTime {
    UtcDateTime {
        year: bits_value(bits, 38, 14) as i32,
        month: bits_value(bits, 52, 4) as u32,
        day: bits_value(bits, 56, 5) as u32,
        hour: bits_value(bits, 61, 5) as u32,
        minute: bits_value(bits, 66, 6) as u32,
        second: bits_value(bits, 72, 6) as u32,
        nanosecond: 0,
    }
}

/// The message of the error for a report whose time does not exist.
pub open spec fn report_time_error(bits: Seq<bool>) -> Seq<char> {
    utc_error_text(
        bits_value(bits, 38, 14) as int,
        bits_value(bits, 52, 4),
        bits_value(bits, 56, 5),
        bits_value(bits, 61, 5),
        bits_value(bits, 66, 6),
        bits_value(bits, 72, 6),
    )
}

/// The base station report that the bits of a type 4 or type 11 message
/// hold, where their time exists.
pub open spec fn base_station_report(
    bits: Seq<bool>,
    station: Station,
    own_vessel: bool,
) -> BaseStationReport {
    let lat = bits_signed_value(bits, 107, 27) as i32;
    let lon = bits_signed_value(bits, 79, 28) as i32;
    let fix = bits_value(bits, 134, 4) as u8;
    BaseStationReport {
        own_vessel,
        station,
        mmsi: bits_value(bits, 8, 30) as u32,
        timestamp: Some(report_time(bits)),
        high_position_accuracy: flag(bits, 78),
        latitude_min10000: if lat != 0x3412140 {
            Some(lat)
        } else {
            None
        },
        longitude_min10000: if lon != 0x6791AC0 {
            Some(lon)
        } else {
            None
        },
        position_fix_type: if fix == 0 {
            None
        } else {
            Some(PositionFixType::of(fix))
        },
        raim_flag: flag(bits, 148),
        radio_status: bits_value(bits, 149, 19) as u32,
    }
}

/// Reads a base station report. Fails where the date or the time of day
/// that it gives does not exist.
pub fn decode(
    bv: &BitSequence,
    station: Station,
    own_vessel: bool,
) -> (r: Result<BaseStationReport, ParseError>)
    ensures
        r is Ok <==> report_time(bit_seq(bv)).wf(),
        r is Ok ==> r.unwrap() == base_station_report(bit_seq(bv), station, own_vessel),
        r is Err ==> r.unwrap_err() is InvalidSentence && r.unwrap_err().text()
            == report_time_error(bit_seq(bv)),
{
    proof {
        lemma2_to64();
    }
    let year: u32 = pick_u32(bv, 38, 14);
    let timestamp = match parse_ymdhs(
        year as i32,
        pick_u32(bv, 52, 4),
        pick_u32(bv, 56, 5),
        pick_u32(bv, 61, 5),
        pick_u32(bv, 66, 6),
        pick_u32(bv, 72, 6),
    ) {
        Ok(t) => t,
        Err(e) => {
            return Err(e);
        },
    };
    let lat: i32 = pick_i32(bv, 107, 27);
    let lon: i32 = pick_i32(bv, 79, 28);
    let fix: u8 = pick_u8(bv, 134, 4);
    Ok(
        BaseStationReport {
            own_vessel,
            station,
            mmsi: pick_u32(bv, 8, 30),
            timestamp: Some(timestamp),
            high_position_accuracy: pick_flag(bv, 78),
            latitude_min10000: if lat != 0x3412140 {
                Some(lat)
            } else {
                None
            },
            longitude_min10000: if lon != 0x6791AC0 {
                Some(lon)
            } else {
                None
            },
            position_fix_type: if fix == 0 {
                None
            } else {
                Some(PositionFixType::new(fix))
            },
            raim_flag: pick_flag(bv, 148),
            radio_status: pick_u32(bv, 149, 19),
        },
    )
}

/// Whether `r` is what decoding a type 4 message of these bits gives.
pub open spec fn decodes(
    bits: Seq<bool>,
    station: Station,
    own_vessel: bool,
    r: Result<ParsedMessage, ParseError>,
) -> bool {
    if report_time(bits).wf() {
        r == Ok::<ParsedMessage, ParseError>(
            ParsedMessage::BaseStationReport(base_station_report(bits, station, own_vessel)),
        )
    } else {
        &&& r is Err
        &&& r.unwrap_err() is InvalidSentence
        &&& r.unwrap_err().text() == report_time_error(bits)
    }
}

/// Decodes a base station report.
pub fn handle(
    bv: &BitSequence,
    station: Station,
    own_vessel: bool,
) -> (r: Result<ParsedMessage, ParseError>)
    ensures
        decodes(bit_seq(bv), station, own_vessel, r),
{
    match decode(bv, station, own_vessel) {
        Ok(report) => Ok(ParsedMessage::BaseStationReport(report)),
        Err(e) => Err(e),
    }
}

} // verus!
