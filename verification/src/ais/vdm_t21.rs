//! AIS type 21: aid to navigation report.

use crate::ParsedMessage;
use crate::ais::{PositionFixType, Station};
use crate::bitseq::{bit_seq, BitSequence};
use crate::error::ParseError;
use crate::text::{decimal_chars, push_decimal, push_text};
use crate::util::{
    bits_signed_value, bits_text, bits_value, flag, pick_flag, pick_i32, pick_string, pick_u16,
    pick_u32, pick_u8,
};
use vstd::arithmetic::power2::lemma2_to64;
use vstd::prelude::*;
use vstd::string::*;

verus! {

/// A report of an aid to navigation: AIS type 21.
#[derive(Clone, Debug, PartialEq, Default)]
pub struct AidToNavigationReport {
    /// True for a message of the own vessel, false for one of another.
    pub own_vessel: bool,
    /// The kind of AIS station.
    pub station: Station,
    /// User id, 30 bits.
    pub mmsi: u32,
    /// The type of the aid.
    pub aid_type: NavAidType,
    /// The name of the aid, with its extension.
    pub name: String,
    /// True for a position accurate to 10 m, false for less.
    pub high_position_accuracy: bool,
    /// Latitude, in 1/10000 of a minute of arc, north positive.
    pub latitude_min10000: Option<i32>,
    /// Longitude, in 1/10000 of a minute of arc, east positive.
    pub longitude_min10000: Option<i32>,
    /// Distance from the reference point to the bow, 9 bits.
    pub dimension_to_bow: Option<u16>,
    /// Distance from the reference point to the stern, 9 bits.
    pub dimension_to_stern: Option<u16>,
    /// Distance from the reference point to port, 6 bits.
    pub dimension_to_port: Option<u16>,
    /// Distance from the reference point to starboard, 6 bits.
    pub dimension_to_starboard: Option<u16>,
    /// Type of the electronic position fixing device.
    pub position_fix_type: Option<PositionFixType>,
    /// The seconds field of the UTC time stamp, 6 bits.
    pub timestamp_seconds: u8,
    /// True where a floating aid is off its position.
    pub off_position_indicator: bool,
    /// Bits kept for regional use.
    pub regional: u8,
    /// True where receiver autonomous integrity monitoring is in use.
    pub raim_flag: bool,
    /// True for a virtual aid, which does not exist physically.
    pub virtual_aid_flag: bool,
    /// True for assigned mode.
    pub assigned_mode_flag: bool,
}

/// The type of an aid to navigation.
#[derive(Clone, Copy, Debug, PartialEq, Eq, Structural)]
pub enum NavAidType {
    NotSpecified,
    ReferencePoint,
    Racon,
    FixedStructure,
    Reserved4,
    LightWithoutSectors,
    LightWithSectors,
    LeadingLightFront,
    LeadingLightRear,
    BeaconCardinalNorth,
    BeaconCardinalEast,
    BeaconCardinalSouth,
    BeaconCardinalWest,
    BeaconLateralPort,
    BeaconLateralStarboard,
    BeaconLateralPreferredChannelPort,
    BeaconLateralPreferredChannelStarboard,
    BeaconIsolatedDanger,
    BeaconSafeWater,
    BeaconSpecialMark,
    CardinalMarkNorth,
    CardinalMarkEast,
    CardinalMarkSouth,
    CardinalMarkWest,
    PortHandMark,
    StarboardHandMark,
    PreferredChannelPort,
    PreferredChannelStarboard,
    IsolatedDanger,
    SafeWater,
    SpecialMark,
    LightVessel,
}

impl Default for NavAidType {
    fn default() -> (r: NavAidType)
        ensures
            r == NavAidType::NotSpecified,
    {
        NavAidType::NotSpecified
    }
}

impl NavAidType {
    /// The variant whose number is `v`.
    pub open spec fn with_value(v: int) -> NavAidType {
        choose|s: NavAidType| s.value() == v
    }

    /// A variant is the one with its number.
    pub proof fn lemma_with_value(s: NavAidType)
        ensures
            NavAidType::with_value(s.value() as int) == s,
    {
        let c = NavAidType::with_value(s.value() as int);
        assert(s.value() == s.value() as int);
        assert(c.value() == s.value());
    }

    /// The number that the AIS standard gives the variant.
    pub open spec fn value(self) -> u8 {
        match self {
            NavAidType::NotSpecified => 0,
            NavAidType::ReferencePoint => 1,
            NavAidType::Racon => 2,
            NavAidType::FixedStructure => 3,
            NavAidType::Reserved4 => 4,
            NavAidType::LightWithoutSectors => 5,
            NavAidType::LightWithSectors => 6,
            NavAidType::LeadingLightFront => 7,
            NavAidType::LeadingLightRear => 8,
            NavAidType::BeaconCardinalNorth => 9,
            NavAidType::BeaconCardinalEast => 10,
            NavAidType::BeaconCardinalSouth => 11,
            NavAidType::BeaconCardinalWest => 12,
            NavAidType::BeaconLateralPort => 13,
            NavAidType::BeaconLateralStarboard => 14,
            NavAidType::BeaconLateralPreferredChannelPort => 15,
            NavAidType::BeaconLateralPreferredChannelStarboard => 16,
            NavAidType::BeaconIsolatedDanger => 17,
            NavAidType::BeaconSafeWater => 18,
            NavAidType::BeaconSpecialMark => 19,
            NavAidType::CardinalMarkNorth => 20,
            NavAidType::CardinalMarkEast => 21,
            NavAidType::CardinalMarkSouth => 22,
            NavAidType::CardinalMarkWest => 23,
            NavAidType::PortHandMark => 24,
            NavAidType::StarboardHandMark => 25,
            NavAidType::PreferredChannelPort => 26,
            NavAidType::PreferredChannelStarboard => 27,
            NavAidType::IsolatedDanger => 28,
            NavAidType::SafeWater => 29,
            NavAidType::SpecialMark => 30,
            NavAidType::LightVessel => 31,
        }
    }

    /// The message of the error for a number that names no variant.
    pub open spec fn error_text(raw: u8) -> Seq<char> {
        "Unrecognized Nav aid type code: "@ + decimal_chars(raw as nat)
    }

    /// The variant with the given number, which must be below 32.
    pub fn new(raw: u8) -> (r: Result<NavAidType, ParseError>)
        ensures
            r is Ok <==> raw < 32,
            r is Ok ==> r.unwrap() == NavAidType::with_value(raw as int),
            r is Err ==> r.unwrap_err() is InvalidSentence && r.unwrap_err().text()
                == NavAidType::error_text(raw),
    {
        let v: NavAidType = match raw {
            0 => NavAidType::NotSpecified,
            1 => NavAidType::ReferencePoint,
            2 => NavAidType::Racon,
            3 => NavAidType::FixedStructure,
            4 => NavAidType::Reserved4,
            5 => NavAidType::LightWithoutSectors,
            6 => NavAidType::LightWithSectors,
            7 => NavAidType::LeadingLightFront,
            8 => NavAidType::LeadingLightRear,
            9 => NavAidType::BeaconCardinalNorth,
            10 => NavAidType::BeaconCardinalEast,
            11 => NavAidType::BeaconCardinalSouth,
            12 => NavAidType::BeaconCardinalWest,
            13 => NavAidType::BeaconLateralPort,
            14 => NavAidType::BeaconLateralStarboard,
            15 => NavAidType::BeaconLateralPreferredChannelPort,
            16 => NavAidType::BeaconLateralPreferredChannelStarboard,
            17 => NavAidType::BeaconIsolatedDanger,
            18 => NavAidType::BeaconSafeWater,
            19 => NavAidType::BeaconSpecialMark,
            20 => NavAidType::CardinalMarkNorth,
            21 => NavAidType::CardinalMarkEast,
            22 => NavAidType::CardinalMarkSouth,
            23 => NavAidType::CardinalMarkWest,
            24 => NavAidType::PortHandMark,
            25 => NavAidType::StarboardHandMark,
            26 => NavAidType::PreferredChannelPort,
            27 => NavAidType::PreferredChannelStarboard,
            28 => NavAidType::IsolatedDanger,
            29 => NavAidType::SafeWater,
            30 => NavAidType::SpecialMark,
            31 => NavAidType::LightVessel,
            _ => {
                let mut msg: String = String::from_str("Unrecognized Nav aid type code: ");
                push_decimal(&mut msg, raw as u64);
                return Err(ParseError::InvalidSentence(msg));
            },
        };
        proof {
            NavAidType::lemma_with_value(v);
        }
        Ok(v)
    }
}

/// Whether `m` is the report that the bits of a type 21 message hold. The
/// name is the name field followed by the name extension field.
pub open spec fn is_aid_to_navigation_report(
    bits: Seq<bool>,
    station: Station,
    own_vessel: bool,
    m: AidToNavigationReport,
) -> bool {
    let lat = bits_signed_value(bits, 192, 27) as i32;
    let lon = bits_signed_value(bits, 164, 28) as i32;
    &&& m.own_vessel == own_vessel
    &&& m.station == station
    &&& m.mmsi == bits_value(bits, 8, 30) as u32
    &&& m.aid_type == NavAidType::with_value(bits_value(bits, 38, 5) as int)
    &&& m.name@ == bits_text(bits, 43, 20) + bits_text(bits, 272, 14)
    &&& m.high_position_accuracy == flag(bits, 163)
    &&& m.latitude_min10000 == (if lat != 0x3412140 {
        Some(lat)
    } else {
        None
    })
    &&& m.longitude_min10000 == (if lon != 0x6791AC0 {
        Some(lon)
    } else {
        None
    })
    &&& m.dimension_to_bow == Some(bits_value(bits, 219, 9) as u16)
    &&& m.dimension_to_stern == Some(bits_value(bits, 228, 9) as u16)
    &&& m.dimension_to_port == Some(bits_value(bits, 237, 6) as u16)
    &&& m.dimension_to_starboard == Some(bits_value(bits, 243, 6) as u16)
    &&& m.position_fix_type == Some(PositionFixType::of(bits_value(bits, 249, 4) as u8))
    &&& m.timestamp_seconds == bits_value(bits, 253, 6) as u8
    &&& m.off_position_indicator == flag(bits, 243)
    &&& m.regional == bits_value(bits, 260, 8) as u8
    &&& m.raim_flag == flag(bits, 268)
    &&& m.virtual_aid_flag == flag(bits, 269)
    &&& m.assigned_mode_flag == flag(bits, 270)
}

/// Whether `r` is what decoding a type 21 message of these bits gives.
pub open spec fn decodes(
    bits: Seq<bool>,
    station: Station,
    own_vessel: bool,
    r: Result<ParsedMessage, ParseError>,
) -> bool {
    match r {
        Ok(ParsedMessage::AidToNavigationReport(m)) => is_aid_to_navigation_report(
            bits,
            station,
            own_vessel,
            m,
        ),
        _ => false,
    }
}

/// Decodes a report of an aid to navigation.
pub fn handle(
    bv: &BitSequence,
    station: Station,
    own_vessel: bool,
) -> (r: Result<ParsedMessage, ParseError>)
    ensures
        decodes(bit_seq(bv), station, own_vessel, r),
{
    proof {
        lemma2_to64();
    }
    let aid_type = match NavAidType::new(pick_u8(bv, 38, 5)) {
        Ok(t) => t,
        Err(_) => NavAidType::NotSpecified,
    };
    let mut name: String = pick_string(bv, 43, 20);
    let extension: String = pick_string(bv, 272, 14);
    push_text(&mut name, extension.as_str());
    let lat: i32 = pick_i32(bv, 192, 27);
    let lon: i32 = pick_i32(bv, 164, 28);
    Ok(
        ParsedMessage::AidToNavigationReport(
            AidToNavigationReport {
                own_vessel,
                station,
                mmsi: pick_u32(bv, 8, 30),
                aid_type,
                name,
                high_position_accuracy: pick_flag(bv, 163),
                latitude_min10000: if lat != 0x3412140 {
                    Some(lat)
                } else {
                    None
                },
                longitude_min10000: if lon != 0x6791AC0 {
                    Some(lon)
                } else {
                    None
                },
                dimension_to_bow: Some(pick_u16(bv, 219, 9)),
                dimension_to_stern: Some(pick_u16(bv, 228, 9)),
                dimension_to_port: Some(pick_u16(bv, 237, 6)),
                dimension_to_starboard: Some(pick_u16(bv, 243, 6)),
                position_fix_type: Some(PositionFixType::new(pick_u8(bv, 249, 4))),
                timestamp_seconds: pick_u8(bv, 253, 6),
                off_position_indicator: pick_flag(bv, 243),
                regional: pick_u8(bv, 260, 8),
                raim_flag: pick_flag(bv, 268),
                virtual_aid_flag: pick_flag(bv, 269),
                assigned_mode_flag: pick_flag(bv, 270),
            },
        ),
    )
}

impl NavAidType {
    /// What the variant is called in a message.
    pub open spec fn label_text(self) -> Seq<char> {
        match self {
            NavAidType::NotSpecified => "not specified"@,
            NavAidType::ReferencePoint => "reference point"@,
            NavAidType::Racon => "RACON"@,
            NavAidType::FixedStructure => "FixedStructure"@,
            NavAidType::Reserved4 => "(reserved)"@,
            NavAidType::LightWithoutSectors => "light without sectors"@,
            NavAidType::LightWithSectors => "light with sectors"@,
            NavAidType::LeadingLightFront => "leading light front"@,
            NavAidType::LeadingLightRear => "leading light rear"@,
            NavAidType::BeaconCardinalNorth => "cardinal beacon, north"@,
            NavAidType::BeaconCardinalEast => "cardinal beacon, east"@,
            NavAidType::BeaconCardinalSouth => "cardinal beacon, south"@,
            NavAidType::BeaconCardinalWest => "cardinal beacon, west"@,
            NavAidType::BeaconLateralPort => "lateral beacon, port side"@,
            NavAidType::BeaconLateralStarboard => "lateral beacon, starboard side"@,
            NavAidType::BeaconLateralPreferredChannelPort => {
                "lateral beacon, preferred channel, port side"@
            },
            NavAidType::BeaconLateralPreferredChannelStarboard => {
                "lateral beacon, preferred channel, starboard side"@
            },
            NavAidType::BeaconIsolatedDanger => "isolated danger beacon"@,
            NavAidType::BeaconSafeWater => "safe water"@,
            NavAidType::BeaconSpecialMark => "special mark"@,
            NavAidType::CardinalMarkNorth => "cardinal mark, north"@,
            NavAidType::CardinalMarkEast => "cardinal mark, east"@,
            NavAidType::CardinalMarkSouth => "cardinal mark, south"@,
            NavAidType::CardinalMarkWest => "cardinal mark, west"@,
            NavAidType::PortHandMark => "port hand mark"@,
            NavAidType::StarboardHandMark => "starboard hand mark"@,
            NavAidType::PreferredChannelPort => "preferred channel, port side"@,
            NavAidType::PreferredChannelStarboard => "preferred channel, starboard side"@,
            NavAidType::IsolatedDanger => "isolated danger"@,
            NavAidType::SafeWater => "safe water"@,
            NavAidType::SpecialMark => "special mark"@,
            NavAidType::LightVessel => "light vessel"@,
        }
    }

    /// What the variant is called in a message.
    pub fn label(&self) -> (r: &'static str)
        ensures
            r@ == self.label_text(),
    {
        match self {
            NavAidType::NotSpecified => "not specified",
            NavAidType::ReferencePoint => "reference point",
            NavAidType::Racon => "RACON",
            NavAidType::FixedStructure => "FixedStructure",
            NavAidType::Reserved4 => "(reserved)",
            NavAidType::LightWithoutSectors => "light without sectors",
            NavAidType::LightWithSectors => "light with sectors",
            NavAidType::LeadingLightFront => "leading light front",
            NavAidType::LeadingLightRear => "leading light rear",
            NavAidType::BeaconCardinalNorth => "cardinal beacon, north",
            NavAidType::BeaconCardinalEast => "cardinal beacon, east",
            NavAidType::BeaconCardinalSouth => "cardinal beacon, south",
            NavAidType::BeaconCardinalWest => "cardinal beacon, west",
            NavAidType::BeaconLateralPort => "lateral beacon, port side",
            NavAidType::BeaconLateralStarboard => "lateral beacon, starboard side",
            NavAidType::BeaconLateralPreferredChannelPort => {
                "lateral beacon, preferred channel, port side"
            },
            NavAidType::BeaconLateralPreferredChannelStarboard => {
                "lateral beacon, preferred channel, starboard side"
            },
            NavAidType::BeaconIsolatedDanger => "isolated danger beacon",
            NavAidType::BeaconSafeWater => "safe water",
            NavAidType::BeaconSpecialMark => "special mark",
            NavAidType::CardinalMarkNorth => "cardinal mark, north",
            NavAidType::CardinalMarkEast => "cardinal mark, east",
            NavAidType::CardinalMarkSouth => "cardinal mark, south",
            NavAidType::CardinalMarkWest => "cardinal mark, west",
            NavAidType::PortHandMark => "port hand mark",
            NavAidType::StarboardHandMark => "starboard hand mark",
            NavAidType::PreferredChannelPort => "preferred channel, port side",
            NavAidType::PreferredChannelStarboard => "preferred channel, starboard side",
            NavAidType::IsolatedDanger => "isolated danger",
            NavAidType::SafeWater => "safe water",
            NavAidType::SpecialMark => "special mark",
            NavAidType::LightVessel => "light vessel",
        }
    }
}

} // verus!
