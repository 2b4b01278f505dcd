//! AIS type 15: interrogation.

use crate::ParsedMessage;
use crate::ais::Station;
use crate::bitseq::{bit_seq, bits_len, BitSequence};
use crate::error::ParseError;
use crate::util::{bits_value, pick_u16, pick_u32, pick_u64, pick_u8};
use vstd::prelude::*;

verus! {

/// An interrogation: AIS type 15.
#[derive(Clone, Debug, PartialEq)]
pub struct Interrogation {
    /// True for a message of the own vessel, false for one of another.
    pub own_vessel: bool,
    /// The kind of AIS station.
    pub station: Station,
    /// Which of the four layouts the length of the message gives.
    pub case: InterrogationCase,
    /// User id of the asking station, 30 bits.
    pub mmsi: u32,
    /// First station asked.
    pub mmsi1: u32,
    /// First message type asked of the first station.
    pub type1_1: u8,
    /// Slot offset for the first answer of the first station.
    pub offset1_1: u16,
    /// Second message type asked of the first station.
    pub type1_2: Option<u8>,
    /// Slot offset for the second answer of the first station.
    pub offset1_2: Option<u16>,
    /// Second station asked.
    pub mmsi2: Option<u32>,
    /// Message type asked of the second station.
    pub type2_1: Option<u8>,
    /// Slot offset for the answer of the second station.
    pub offset2_1: Option<u16>,
}

/// The layout of an interrogation, told by its length.
#[derive(Clone, Copy, Debug, PartialEq, Eq, Structural)]
pub enum InterrogationCase {
    /// One station is asked for one message type.
    Case1,
    /// One station is asked for two message types.
    Case2,
    /// Two stations are asked for one message type each.
    Case3,
    /// One station is asked for two message types, a second for one.
    Case4,
}

impl InterrogationCase {
    /// The layout of a message of these bits: under 110 bits the first;
    /// under 160 the second; from 160 on the third where the 18 bits from
    /// bit 90 are all 0, else the fourth.
    pub open spec fn of(bits: Seq<bool>) -> InterrogationCase {
        if bits.len() >= 160 {
            if bits_value(bits, 90, 18) == 0 {
                InterrogationCase::Case3
            } else {
                InterrogationCase::Case4
            }
        } else if bits.len() >= 110 {
            InterrogationCase::Case2
        } else {
            InterrogationCase::Case1
        }
    }

    /// Tells the layout of an interrogation by its length.
    pub fn new(bv: &BitSequence) -> (r: InterrogationCase)
        ensures
            r == InterrogationCase::of(bit_seq(bv)),
    {
        let len: usize = bits_len(bv);
        if len >= 160 {
            if pick_u64(bv, 90, 18) == 0 {
                InterrogationCase::Case3
            } else {
                InterrogationCase::Case4
            }
        } else if len >= 110 {
            InterrogationCase::Case2
        } else {
            InterrogationCase::Case1
        }
    }
}

/// The interrogation that the bits of a type 15 message hold.
pub open spec fn interrogation(
    bits: Seq<bool>,
    station: Station,
    own_vessel: bool,
) -> Interrogation {
    let case = InterrogationCase::of(bits);
    let two_types = case == InterrogationCase::Case2 || case == InterrogationCase::Case4;
    let two_stations = case == InterrogationCase::Case3 || case == InterrogationCase::Case4;
    Interrogation {
        own_vessel,
        station,
        case,
        mmsi: bits_value(bits, 8, 30) as u32,
        mmsi1: bits_value(bits, 40, 30) as u32,
        type1_1: bits_value(bits, 70, 6) as u8,
        offset1_1: bits_value(bits, 76, 12) as u16,
        type1_2: if two_types {
            Some(bits_value(bits, 90, 6) as u8)
        } else {
            None
        },
        offset1_2: if two_types {
            Some(bits_value(bits, 96, 12) as u16)
        } else {
            None
        },
        mmsi2: if two_stations {
            Some(bits_value(bits, 110, 30) as u32)
        } else {
            None
        },
        type2_1: if case == InterrogationCase::Case4 {
            Some(bits_value(bits, 140, 6) as u8)
        } else {
            None
        },
        offset2_1: if case == InterrogationCase::Case4 {
            Some(bits_value(bits, 146, 12) as u16)
        } else {
            None
        },
    }
}

/// Whether `r` is what decoding a type 15 message of these bits gives.
pub open spec fn decodes(
    bits: Seq<bool>,
    station: Station,
    own_vessel: bool,
    r: Result<ParsedMessage, ParseError>,
) -> bool {
    r == Ok::<ParsedMessage, ParseError>(
        ParsedMessage::Interrogation(interrogation(bits, station, own_vessel)),
    )
}

/// Decodes an interrogation.
pub fn handle(
    bv: &BitSequence,
    station: Station,
    own_vessel: bool,
) -> (r: Result<ParsedMessage, ParseError>)
    ensures
        decodes(bit_seq(bv), station, own_vessel, r),
{
    let case = InterrogationCase::new(bv);
    let two_types: bool = case == InterrogationCase::Case2 || case == InterrogationCase::Case4;
    let two_stations: bool = case == InterrogationCase::Case3 || case == InterrogationCase::Case4;
    Ok(
        ParsedMessage::Interrogation(
            Interrogation {
                own_vessel,
                station,
                case,
                mmsi: pick_u32(bv, 8, 30),
                mmsi1: pick_u32(bv, 40, 30),
                type1_1: pick_u8(bv, 70, 6),
                offset1_1: pick_u16(bv, 76, 12),
                type1_2: if two_types {
                    Some(pick_u8(bv, 90, 6))
                } else {
                    None
                },
                offset1_2: if two_types {
                    Some(pick_u16(bv, 96, 12))
                } else {
                    None
                },
                mmsi2: if two_stations {
                    Some(pick_u32(bv, 110, 30))
                } else {
                    None
                },
                type2_1: if case == InterrogationCase::Case4 {
                    Some(pick_u8(bv, 140, 6))
                } else {
                    None
                },
                offset2_1: if case == InterrogationCase::Case4 {
                    Some(pick_u16(bv, 146, 12))
                } else {
                    None
                },
            },
        ),
    )
}

} // verus!
