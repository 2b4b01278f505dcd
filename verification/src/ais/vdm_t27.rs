//! AIS type 27: long range broadcast position report.

use crate::ParsedMessage;
use crate::ais::{AisClass, NavigationStatus, Station, VesselDynamicData};
use crate::bitseq::{bit_seq, BitSequence};
use crate::error::ParseError;
use crate::util::{
    bits_signed_value, bits_value, flag, pick_flag, pick_i32, pick_u16, pick_u32, pick_u8,
};
use vstd::arithmetic::power2::lemma2_to64;
use vstd::prelude::*;

verus! {

/// The position report that the bits of a type 27 message hold. The
/// position comes in tenths of a minute and the speed in knots.
pub open spec fn long_range_report(
    bits: Seq<bool>,
    station: Station,
    own_vessel: bool,
) -> VesselDynamicData {
    let sog = bits_value(bits, 62, 6) as u16;
    let lat = bits_signed_value(bits, 44, 18) as i32;
    let lon = bits_signed_value(bits, 62, 17) as i32;
    let cog = bits_value(bits, 62, 17) as u32;
    let gnss = flag(bits, 62);
    let mmsi = bits_value(bits, 8, 30) as u32;
    let nav_status = bits_value(bits, 40, 4) as u8;
    let high_position_accuracy = flag(bits, 38);
    let raim_flag = flag(bits, 39);
    VesselDynamicData {
        own_vessel,
        station,
        ais_type: AisClass::ClassA,
        mmsi,
        nav_status: NavigationStatus::of(nav_status),
        rot_indicator: None,
        rot_direction: None,
        sog_knots10: if sog != 63 {
            Some((sog * 10) as u16)
        } else {
            None
        },
        high_position_accuracy,
        latitude_min10000: if lat != 181000 {
            Some((lat * 1000) as i32)
        } else {
            None
        },
        longitude_min10000: if lon != 181000 {
            Some((lon * 1000) as i32)
        } else {
            None
        },
        cog10: if cog != 91000 {
            Some(cog)
        } else {
            None
        },
        heading_true: None,
        timestamp_seconds: 0,
        positioning_system_meta: None,
        current_gnss_position: Some(!gnss),
        special_manoeuvre: None,
        raim_flag,
        class_b_unit_flag: None,
        class_b_display: None,
        class_b_dsc: None,
        class_b_band_flag: None,
        class_b_msg22_flag: None,
        class_b_mode_flag: None,
        class_b_css_flag: None,
        radio_status: None,
    }
}

/// Whether `r` is what decoding a type 27 message of these bits gives.
pub open spec fn decodes(
    bits: Seq<bool>,
    station: Station,
    own_vessel: bool,
    r: Result<ParsedMessage, ParseError>,
) -> bool {
    r == Ok::<ParsedMessage, ParseError>(
        ParsedMessage::VesselDynamicData(long_range_report(bits, station, own_vessel)),
    )
}

/// Decodes a long range broadcast position report.
pub fn handle(
    bv: &BitSequence,
    station: Station,
    own_vessel: bool,
) -> (r: Result<ParsedMessage, ParseError>)
    ensures
        decodes(bit_seq(bv), station, own_vessel, r),
{
    proof {
        lemma2_to64();
    }
    let sog: u16 = pick_u16(bv, 62, 6);
    let lat: i32 = pick_i32(bv, 44, 18);
    let lon: i32 = pick_i32(bv, 62, 17);
    let cog: u32 = pick_u32(bv, 62, 17);
    let gnss: bool = pick_flag(bv, 62);
    let mmsi: u32 = pick_u32(bv, 8, 30);
    let nav_status: u8 = pick_u8(bv, 40, 4);
    let high_position_accuracy: bool = pick_flag(bv, 38);
    let raim_flag: bool = pick_flag(bv, 39);
    Ok(
        ParsedMessage::VesselDynamicData(
            VesselDynamicData {
                own_vessel,
                station,
                ais_type: AisClass::ClassA,
                mmsi,
                nav_status: NavigationStatus::new(nav_status),
                rot_indicator: None,
                rot_direction: None,
                sog_knots10: if sog != 63 {
                    Some(sog * 10)
                } else {
                    None
                },
                high_position_accuracy,
                latitude_min10000: if lat != 181000 {
                    Some(lat * 1000)
                } else {
                    None
                },
                longitude_min10000: if lon != 181000 {
                    Some(lon * 1000)
                } else {
                    None
                },
                cog10: if cog != 91000 {
                    Some(cog)
                } else {
                    None
                },
                heading_true: None,
                timestamp_seconds: 0,
                positioning_system_meta: None,
                current_gnss_position: Some(!gnss),
                special_manoeuvre: None,
                raim_flag,
                class_b_unit_flag: None,
                class_b_display: None,
                class_b_dsc: None,
                class_b_band_flag: None,
                class_b_msg22_flag: None,
                class_b_mode_flag: None,
                class_b_css_flag: None,
                radio_status: None,
            },
        ),
    )
}

} // verus!
