//! AIS types 1, 2 and 3: position report of a class A station.

use crate::ParsedMessage;
use crate::ais::{
    AisClass, NavigationStatus, PositioningSystemMeta, RotDirection, Station, VesselDynamicData,
};
use crate::bitseq::{bit_seq, BitSequence};
use crate::error::ParseError;
use crate::util::{
    bits_signed_value, bits_value, flag, pick_flag, pick_i32, pick_u16, pick_u32, pick_u8,
};
use vstd::prelude::*;

verus! {

/// The rate-of-turn indicator: present from -126 to 126.
pub open spec fn rot_indicator(raw: int) -> Option<i8> {
    if -126 <= raw <= 126 {
        Some(raw as i8)
    } else {
        None
    }
}

/// The direction of turn: none for -128, port up to -2, centre up to 1,
/// starboard above.
pub open spec fn rot_direction(raw: int) -> Option<RotDirection> {
    if raw == -128 {
        None
    } else if raw <= -2 {
        Some(RotDirection::Port)
    } else if raw < 2 {
        Some(RotDirection::Center)
    } else if raw < 128 {
        Some(RotDirection::Starboard)
    } else {
        None
    }
}

/// What the seconds field tells of the positioning system.
pub open spec fn positioning_meta(sec: int) -> Option<PositioningSystemMeta> {
    if sec == 60 {
        None
    } else if sec == 61 {
        Some(PositioningSystemMeta::ManualInputMode)
    } else if sec == 62 {
        Some(PositioningSystemMeta::DeadReckoningMode)
    } else if sec == 63 {
        Some(PositioningSystemMeta::Inoperative)
    } else {
        Some(PositioningSystemMeta::Operative)
    }
}

/// The position report that the bits of a type 1, 2 or 3 message hold.
pub open spec fn position_report(
    bits: Seq<bool>,
    station: Station,
    own_vessel: bool,
) -> VesselDynamicData {
    let rot = bits_signed_value(bits, 42, 8);
    let sog = bits_value(bits, 50, 10);
    let lat = bits_signed_value(bits, 89, 27);
    let lon = bits_signed_value(bits, 61, 28);
    let cog = bits_value(bits, 116, 12);
    let heading = bits_value(bits, 128, 9);
    let manoeuvre = bits_value(bits, 143, 2);
    VesselDynamicData {
        own_vessel,
        station,
        ais_type: AisClass::ClassA,
        mmsi: bits_value(bits, 8, 30) as u32,
        nav_status: NavigationStatus::of(bits_value(bits, 38, 4) as u8),
        rot_indicator: rot_indicator(rot),
        rot_direction: rot_direction(rot),
        sog_knots10: if sog < 1023 {
            Some(sog as u16)
        } else {
            None
        },
        high_position_accuracy: flag(bits, 60),
        latitude_min10000: if lat != 0x3412140 {
            Some(lat as i32)
        } else {
            None
        },
        longitude_min10000: if lon != 0x6791AC0 {
            Some(lon as i32)
        } else {
            None
        },
        cog10: if cog != 0xE10 {
            Some(cog as u32)
        } else {
            None
        },
        heading_true: if heading != 511 {
            Some(heading as u16)
        } else {
            None
        },
        timestamp_seconds: bits_value(bits, 137, 6) as u8,
        positioning_system_meta: positioning_meta(bits_value(bits, 137, 6) as int),
        current_gnss_position: None,
        special_manoeuvre: if manoeuvre == 1 || manoeuvre == 2 {
            Some(true)
        } else {
            None
        },
        raim_flag: flag(bits, 148),
        class_b_unit_flag: None,
        class_b_display: None,
        class_b_dsc: None,
        class_b_band_flag: None,
        class_b_msg22_flag: None,
        class_b_mode_flag: None,
        class_b_css_flag: None,
        radio_status: Some(bits_value(bits, 149, 19) as u32),
    }
}

/// Whether `r` is what decoding a type 1, 2 or 3 message of these bits gives.
pub open spec fn decodes(
    bits: Seq<bool>,
    station: Station,
    own_vessel: bool,
    r: Result<ParsedMessage, ParseError>,
) -> bool {
    r == Ok::<ParsedMessage, ParseError>(
        ParsedMessage::VesselDynamicData(position_report(bits, station, own_vessel)),
    )
}

/// Decodes a position report of types 1, 2 and 3.
pub fn handle(
    bv: &BitSequence,
    station: Station,
    own_vessel: bool,
) -> (r: Result<ParsedMessage, ParseError>)
    ensures
        decodes(bit_seq(bv), station, own_vessel, r),
{
    let rot: i32 = pick_i32(bv, 42, 8);
    let sog: u16 = pick_u16(bv, 50, 10);
    let lat: i32 = pick_i32(bv, 89, 27);
    let lon: i32 = pick_i32(bv, 61, 28);
    let cog: u32 = pick_u32(bv, 116, 12);
    let heading: u16 = pick_u16(bv, 128, 9);
    let sec: u8 = pick_u8(bv, 137, 6);
    let manoeuvre: u8 = pick_u8(bv, 143, 2);
    Ok(
        ParsedMessage::VesselDynamicData(
            VesselDynamicData {
                own_vessel,
                station,
                ais_type: AisClass::ClassA,
                mmsi: pick_u32(bv, 8, 30),
                nav_status: NavigationStatus::new(pick_u8(bv, 38, 4)),
                rot_indicator: if -126 <= rot && rot <= 126 {
                    Some(rot as i8)
                } else {
                    None
                },
                rot_direction: if rot == -128 {
                    None
                } else if rot <= -2 {
                    Some(RotDirection::Port)
                } else if rot < 2 {
                    Some(RotDirection::Center)
                } else if rot < 128 {
                    Some(RotDirection::Starboard)
                } else {
                    None
                },
                sog_knots10: if sog < 1023 {
                    Some(sog)
                } else {
                    None
                },
                high_position_accuracy: pick_flag(bv, 60),
                latitude_min10000: if lat != 0x3412140 {
                    Some(lat)
                } else {
                    None
                },
                longitude_min10000: if lon != 0x6791AC0 {
                    Some(lon)
                } else {
                    None
                },
                cog10: if cog != 0xE10 {
                    Some(cog)
                } else {
                    None
                },
                heading_true: if heading != 511 {
                    Some(heading)
                } else {
                    None
                },
                timestamp_seconds: sec,
                positioning_system_meta: if sec == 60 {
                    None
                } else if sec == 61 {
                    Some(PositioningSystemMeta::ManualInputMode)
                } else if sec == 62 {
                    Some(PositioningSystemMeta::DeadReckoningMode)
                } else if sec == 63 {
                    Some(PositioningSystemMeta::Inoperative)
                } else {
                    Some(PositioningSystemMeta::Operative)
                },
                current_gnss_position: None,
                special_manoeuvre: if manoeuvre == 1 || manoeuvre == 2 {
                    Some(true)
                } else {
                    None
                },
                raim_flag: pick_flag(bv, 148),
                class_b_unit_flag: None,
                class_b_display: None,
                class_b_dsc: None,
                class_b_band_flag: None,
                class_b_msg22_flag: None,
                class_b_mode_flag: None,
                class_b_css_flag: None,
                radio_status: Some(pick_u32(bv, 149, 19)),
            },
        ),
    )
}

} // verus!
