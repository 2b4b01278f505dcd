//! AIS type 23: group assignment command.

use crate::ParsedMessage;
use crate::ais::{CargoType, ShipType, Station};
use crate::bitseq::{bit_seq, BitSequence};
use crate::error::ParseError;
use crate::text::{decimal_chars, push_decimal};
use crate::util::{bits_signed_value, bits_value, pick_i32, pick_u32, pick_u8};
use vstd::arithmetic::power2::lemma2_to64;
use vstd::prelude::*;
use vstd::string::*;

verus! {

/// A group assignment command: AIS type 23.
#[derive(Clone, Debug, PartialEq, Default)]
pub struct GroupAssignmentCommand {
    /// True for a message of the own vessel, false for one of another.
    pub own_vessel: bool,
    /// The kind of AIS station.
    pub station: Station,
    /// User id of the commanding station, 30 bits.
    pub mmsi: u32,
    /// North-east corner latitude, in 1/10000 of a minute of arc.
    pub ne_lat_min10000: Option<i32>,
    /// North-east corner longitude, in 1/10000 of a minute of arc.
    pub ne_lon_min10000: Option<i32>,
    /// South-west corner latitude, in 1/10000 of a minute of arc.
    pub sw_lat_min10000: Option<i32>,
    /// South-west corner longitude, in 1/10000 of a minute of arc.
    pub sw_lon_min10000: Option<i32>,
    /// The type of station that the command is for.
    pub station_type: StationType,
    /// The type of ship that the command is for.
    pub ship_type: ShipType,
    /// The type of cargo that the command is for.
    pub cargo_type: CargoType,
    /// Transmit and receive mode, 2 bits.
    pub txrx: u8,
    /// The reporting interval commanded.
    pub interval: StationInterval,
    /// Quiet time in minutes, where one is commanded.
    pub quiet: Option<u8>,
}

/// The type of station that a group assignment is for.
#[derive(Clone, Copy, Debug, PartialEq, Eq, Structural)]
pub enum StationType {
    AllTypes,
    Reserved1,
    AllTypesOfClassBMobile,
    SarAirborneMobile,
    AidToNavigation,
    ClassBShipBorneMobile,
    Regional6,
    Regional7,
    Regional8,
    Regional9,
    Reserved10,
    Reserved11,
    Reserved12,
    Reserved13,
    Reserved14,
    Reserved15,
}

impl Default for StationType {
    fn default() -> (r: StationType)
        ensures
            r == StationType::AllTypes,
    {
        StationType::AllTypes
    }
}

impl StationType {
    /// The variant whose number is `v`.
    pub open spec fn with_value(v: int) -> StationType {
        choose|s: StationType| s.value() == v
    }

    /// A variant is the one with its number.
    pub proof fn lemma_with_value(s: StationType)
        ensures
            StationType::with_value(s.value() as int) == s,
    {
        let c = StationType::with_value(s.value() as int);
        assert(s.value() == s.value() as int);
        assert(c.value() == s.value());
    }

    /// The number that the AIS standard gives the variant.
    pub open spec fn value(self) -> u8 {
        match self {
            StationType::AllTypes => 0,
            StationType::Reserved1 => 1,
            StationType::AllTypesOfClassBMobile => 2,
            StationType::SarAirborneMobile => 3,
            StationType::AidToNavigation => 4,
            StationType::ClassBShipBorneMobile => 5,
            StationType::Regional6 => 6,
            StationType::Regional7 => 7,
            StationType::Regional8 => 8,
            StationType::Regional9 => 9,
            StationType::Reserved10 => 10,
            StationType::Reserved11 => 11,
            StationType::Reserved12 => 12,
            StationType::Reserved13 => 13,
            StationType::Reserved14 => 14,
            StationType::Reserved15 => 15,
        }
    }

    /// The message of the error for a number that names no variant.
    pub open spec fn error_text(raw: u8) -> Seq<char> {
        "Station type value out of range: "@ + decimal_chars(raw as nat)
    }

    /// The variant with the given number, which must be below 16.
    pub fn new(raw: u8) -> (r: Result<StationType, String>)
        ensures
            r is Ok <==> raw < 16,
            r is Ok ==> r.unwrap() == StationType::with_value(raw as int),
            r is Err ==> r.unwrap_err()@ == StationType::error_text(raw),
    {
        let v: StationType = match raw {
            0 => StationType::AllTypes,
            1 => StationType::Reserved1,
            2 => StationType::AllTypesOfClassBMobile,
            3 => StationType::SarAirborneMobile,
            4 => StationType::AidToNavigation,
            5 => StationType::ClassBShipBorneMobile,
            6 => StationType::Regional6,
            7 => StationType::Regional7,
            8 => StationType::Regional8,
            9 => StationType::Regional9,
            10 => StationType::Reserved10,
            11 => StationType::Reserved11,
            12 => StationType::Reserved12,
            13 => StationType::Reserved13,
            14 => StationType::Reserved14,
            15 => StationType::Reserved15,
            _ => {
                let mut msg: String = String::from_str("Station type value out of range: ");
                push_decimal(&mut msg, raw as u64);
                return Err(msg);
            },
        };
        proof {
            StationType::lemma_with_value(v);
        }
        Ok(v)
    }
}

/// The reporting interval of a group assignment.
#[derive(Clone, Copy, Debug, PartialEq, Eq, Structural)]
pub enum StationInterval {
    Autonomous,
    Time10min,
    Time6min,
    Time3min,
    Time1min,
    Time30sec,
    Time15sec,
    Time10sec,
    Time5sec,
    NextShorterReportingInverval,
    NextLongerReportingInverval,
    Reserved11,
    Reserved12,
    Reserved13,
    Reserved14,
    Reserved15,
}

impl Default for StationInterval {
    fn default() -> (r: StationInterval)
        ensures
            r == StationInterval::Autonomous,
    {
        StationInterval::Autonomous
    }
}

impl StationInterval {
    /// The variant whose number is `v`.
    pub open spec fn with_value(v: int) -> StationInterval {
        choose|s: StationInterval| s.value() == v
    }

    /// A variant is the one with its number.
    pub proof fn lemma_with_value(s: StationInterval)
        ensures
            StationInterval::with_value(s.value() as int) == s,
    {
        let c = StationInterval::with_value(s.value() as int);
        assert(s.value() == s.value() as int);
        assert(c.value() == s.value());
    }

    /// The number that the AIS standard gives the variant.
    pub open spec fn value(self) -> u8 {
        match self {
            StationInterval::Autonomous => 0,
            StationInterval::Time10min => 1,
            StationInterval::Time6min => 2,
            StationInterval::Time3min => 3,
            StationInterval::Time1min => 4,
            StationInterval::Time30sec => 5,
            StationInterval::Time15sec => 6,
            StationInterval::Time10sec => 7,
            StationInterval::Time5sec => 8,
            StationInterval::NextShorterReportingInverval => 9,
            StationInterval::NextLongerReportingInverval => 10,
            StationInterval::Reserved11 => 11,
            StationInterval::Reserved12 => 12,
            StationInterval::Reserved13 => 13,
            StationInterval::Reserved14 => 14,
            StationInterval::Reserved15 => 15,
        }
    }

    /// The message of the error for a number that names no variant.
    pub open spec fn error_text(raw: u8) -> Seq<char> {
        "Station interval value out of range: "@ + decimal_chars(raw as nat)
    }

    /// The variant with the given number, which must be below 16.
    pub fn new(raw: u8) -> (r: Result<StationInterval, String>)
        ensures
            r is Ok <==> raw < 16,
            r is Ok ==> r.unwrap() == StationInterval::with_value(raw as int),
            r is Err ==> r.unwrap_err()@ == StationInterval::error_text(raw),
    {
        let v: StationInterval = match raw {
            0 => StationInterval::Autonomous,
            1 => StationInterval::Time10min,
            2 => StationInterval::Time6min,
            3 => StationInterval::Time3min,
            4 => StationInterval::Time1min,
            5 => StationInterval::Time30sec,
            6 => StationInterval::Time15sec,
            7 => StationInterval::Time10sec,
            8 => StationInterval::Time5sec,
            9 => StationInterval::NextShorterReportingInverval,
            10 => StationInterval::NextLongerReportingInverval,
            11 => StationInterval::Reserved11,
            12 => StationInterval::Reserved12,
            13 => StationInterval::Reserved13,
            14 => StationInterval::Reserved14,
            15 => StationInterval::Reserved15,
            _ => {
                let mut msg: String = String::from_str("Station interval value out of range: ");
                push_decimal(&mut msg, raw as u64);
                return Err(msg);
            },
        };
        proof {
            StationInterval::lemma_with_value(v);
        }
        Ok(v)
    }
}

/// The group assignment command that the bits of a type 23 message hold.
/// Corner positions come in tenths of a minute.
pub open spec fn group_assignment(
    bits: Seq<bool>,
    station: Station,
    own_vessel: bool,
) -> GroupAssignmentCommand {
    let ship_and_cargo = bits_value(bits, 114, 8) as u8;
    let quiet = bits_value(bits, 144, 4) as u8;
    GroupAssignmentCommand {
        own_vessel,
        station,
        mmsi: bits_value(bits, 8, 30) as u32,
        ne_lat_min10000: Some((bits_signed_value(bits, 58, 17) * 1000) as i32),
        ne_lon_min10000: Some((bits_signed_value(bits, 40, 18) * 1000) as i32),
        sw_lat_min10000: Some((bits_signed_value(bits, 93, 17) * 1000) as i32),
        sw_lon_min10000: Some((bits_signed_value(bits, 75, 18) * 1000) as i32),
        station_type: StationType::with_value(bits_value(bits, 110, 4) as int),
        ship_type: ShipType::of(ship_and_cargo),
        cargo_type: CargoType::of(ship_and_cargo),
        txrx: bits_value(bits, 144, 2) as u8,
        interval: StationInterval::with_value(bits_value(bits, 146, 4) as int),
        quiet: if quiet == 0 {
            None
        } else {
            Some(quiet)
        },
    }
}

/// Whether `r` is what decoding a type 23 message of these bits gives.
pub open spec fn decodes(
    bits: Seq<bool>,
    station: Station,
    own_vessel: bool,
    r: Result<ParsedMessage, ParseError>,
) -> bool {
    r == Ok::<ParsedMessage, ParseError>(
        ParsedMessage::GroupAssignmentCommand(group_assignment(bits, station, own_vessel)),
    )
}

/// Decodes a group assignment command.
pub fn handle(
    bv: &BitSequence,
    station: Station,
    own_vessel: bool,
) -> (r: Result<ParsedMessage, ParseError>)
    ensures
        decodes(bit_seq(bv), station, own_vessel, r),
{
    proof {
        lemma2_to64();
    }
    let station_type = match StationType::new(pick_u8(bv, 110, 4)) {
        Ok(t) => t,
        Err(e) => {
            return Err(ParseError::InvalidSentence(e));
        },
    };
    let interval = match StationInterval::new(pick_u8(bv, 146, 4)) {
        Ok(i) => i,
        Err(e) => {
            return Err(ParseError::InvalidSentence(e));
        },
    };
    let ship_and_cargo: u8 = pick_u8(bv, 114, 8);
    let quiet: u8 = pick_u8(bv, 144, 4);
    Ok(
        ParsedMessage::GroupAssignmentCommand(
            GroupAssignmentCommand {
                own_vessel,
                station,
                mmsi: pick_u32(bv, 8, 30),
                ne_lat_min10000: Some(pick_i32(bv, 58, 17) * 1000),
                ne_lon_min10000: Some(pick_i32(bv, 40, 18) * 1000),
                sw_lat_min10000: Some(pick_i32(bv, 93, 17) * 1000),
                sw_lon_min10000: Some(pick_i32(bv, 75, 18) * 1000),
                station_type,
                ship_type: ShipType::new(ship_and_cargo),
                cargo_type: CargoType::new(ship_and_cargo),
                txrx: pick_u8(bv, 144, 2),
                interval,
                quiet: if quiet == 0 {
                    None
                } else {
                    Some(quiet)
                },
            },
        ),
    )
}

} // verus!
