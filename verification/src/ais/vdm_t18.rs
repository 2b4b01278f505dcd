//! AIS type 18: position report of a class B station.

use crate::ParsedMessage;
use crate::ais::{AisClass, NavigationStatus, Station, VesselDynamicData};
use crate::bitseq::{bit_seq, BitSequence};
use crate::error::ParseError;
use crate::util::{
    bits_signed_value, bits_value, flag, pick_flag, pick_i32, pick_u16, pick_u32, pick_u8,
};
use vstd::prelude::*;

verus! {

/// The position report that the bits of a type 18 message hold.
pub open spec fn class_b_position_report(
    bits: Seq<bool>,
    station: Station,
    own_vessel: bool,
) -> VesselDynamicData {
    let sog = bits_value(bits, 46, 10) as u16;
    let lat = bits_signed_value(bits, 85, 27) as i32;
    let lon = bits_signed_value(bits, 57, 28) as i32;
    let cog = bits_value(bits, 112, 12) as u32;
    let heading = bits_value(bits, 124, 9) as u16;
    let mmsi = bits_value(bits, 8, 30) as u32;
    let high_position_accuracy = flag(bits, 56);
    let timestamp_seconds = bits_value(bits, 133, 6) as u8;
    let bit_141 = flag(bits, 141);
    let class_b_dsc = flag(bits, 142);
    let class_b_band_flag = flag(bits, 143);
    let class_b_msg22_flag = flag(bits, 144);
    let class_b_mode_flag = flag(bits, 145);
    let radio_status = bits_value(bits, 149, 19) as u32;
    VesselDynamicData {
        own_vessel,
        station,
        ais_type: AisClass::ClassB,
        mmsi,
        nav_status: NavigationStatus::NotDefined,
        rot_indicator: None,
        rot_direction: None,
        sog_knots10: if sog < 1023 {
            Some(sog)
        } else {
            None
        },
        high_position_accuracy,
        latitude_min10000: if lat != 0x3412140 {
            Some(lat)
        } else {
            None
        },
        longitude_min10000: if lon != 0x6791AC0 {
            Some(lon)
        } else {
            None
        },
        cog10: if cog != 0xE10 {
            Some(cog)
        } else {
            None
        },
        heading_true: if heading != 511 {
            Some(heading)
        } else {
            None
        },
        timestamp_seconds,
        positioning_system_meta: None,
        current_gnss_position: None,
        special_manoeuvre: None,
        raim_flag: bit_141,
        class_b_unit_flag: None,
        class_b_display: Some(bit_141),
        class_b_dsc: Some(class_b_dsc),
        class_b_band_flag: Some(class_b_band_flag),
        class_b_msg22_flag: Some(class_b_msg22_flag),
        class_b_mode_flag: Some(class_b_mode_flag),
        class_b_css_flag: None,
        radio_status: Some(radio_status),
    }
}

/// Whether `r` is what decoding a type 18 message of these bits gives.
pub open spec fn decodes(
    bits: Seq<bool>,
    station: Station,
    own_vessel: bool,
    r: Result<ParsedMessage, ParseError>,
) -> bool {
    r == Ok::<ParsedMessage, ParseError>(
        ParsedMessage::VesselDynamicData(class_b_position_report(bits, station, own_vessel)),
    )
}

/// Decodes a position report of a class B station.
pub fn handle(
    bv: &BitSequence,
    station: Station,
    own_vessel: bool,
) -> (r: Result<ParsedMessage, ParseError>)
    ensures
        decodes(bit_seq(bv), station, own_vessel, r),
{
    let sog: u16 = pick_u16(bv, 46, 10);
    let lat: i32 = pick_i32(bv, 85, 27);
    let lon: i32 = pick_i32(bv, 57, 28);
    let cog: u32 = pick_u32(bv, 112, 12);
    let heading: u16 = pick_u16(bv, 124, 9);
    let mmsi: u32 = pick_u32(bv, 8, 30);
    let high_position_accuracy: bool = pick_flag(bv, 56);
    let timestamp_seconds: u8 = pick_u8(bv, 133, 6);
    let bit_141: bool = pick_flag(bv, 141);
    let class_b_dsc: bool = pick_flag(bv, 142);
    let class_b_band_flag: bool = pick_flag(bv, 143);
    let class_b_msg22_flag: bool = pick_flag(bv, 144);
    let class_b_mode_flag: bool = pick_flag(bv, 145);
    let radio_status: u32 = pick_u32(bv, 149, 19);
    Ok(
        ParsedMessage::VesselDynamicData(
            VesselDynamicData {
                own_vessel,
                station,
                ais_type: AisClass::ClassB,
                mmsi,
                nav_status: NavigationStatus::NotDefined,
                rot_indicator: None,
                rot_direction: None,
                sog_knots10: if sog < 1023 {
                    Some(sog)
                } else {
                    None
                },
                high_position_accuracy,
                latitude_min10000: if lat != 0x3412140 {
                    Some(lat)
                } else {
                    None
                },
                longitude_min10000: if lon != 0x6791AC0 {
                    Some(lon)
                } else {
                    None
                },
                cog10: if cog != 0xE10 {
                    Some(cog)
                } else {
                    None
                },
                heading_true: if heading != 511 {
                    Some(heading)
                } else {
                    None
                },
                timestamp_seconds,
                positioning_system_meta: None,
                current_gnss_position: None,
                special_manoeuvre: None,
                raim_flag: bit_141,
                class_b_unit_flag: None,
                class_b_display: Some(bit_141),
                class_b_dsc: Some(class_b_dsc),
                class_b_band_flag: Some(class_b_band_flag),
                class_b_msg22_flag: Some(class_b_msg22_flag),
                class_b_mode_flag: Some(class_b_mode_flag),
                class_b_css_flag: None,
                radio_status: Some(radio_status),
            },
        ),
    )
}

} // verus!
