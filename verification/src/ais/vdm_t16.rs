//! AIS type 16: assignment mode command.

use crate::ParsedMessage;
use crate::ais::Station;
use crate::bitseq::{bit_seq, bits_len, BitSequence};
use crate::error::ParseError;
use crate::util::{bits_value, pick_u16, pick_u32};
use vstd::prelude::*;

verus! {

/// An assignment mode command: AIS type 16.
#[derive(Clone, Debug, PartialEq)]
pub struct AssignmentModeCommand {
    /// True for a message of the own vessel, false for one of another.
    pub own_vessel: bool,
    /// The kind of AIS station.
    pub station: Station,
    /// True where the command is for one station, false where for two.
    pub assigned_for_single_station: bool,
    /// User id of the commanding station, 30 bits.
    pub mmsi: u32,
    /// First station commanded.
    pub mmsi1: u32,
    /// Offset for the first station.
    pub offset1: u16,
    /// Increment for the first station.
    pub increment1: u16,
    /// Second station commanded.
    pub mmsi2: Option<u32>,
    /// Offset for the second station.
    pub offset2: Option<u16>,
    /// Increment for the second station.
    pub increment2: Option<u16>,
}

/// The assignment mode command that the bits of a type 16 message hold. A
/// message of fewer than 144 bits is for one station.
pub open spec fn assignment_command(
    bits: Seq<bool>,
    station: Station,
    own_vessel: bool,
) -> AssignmentModeCommand {
    let n = bits.len();
    let mmsi2 = bits_value(bits, 92, 30) as u32;
    let offset2 = bits_value(bits, 122, 12) as u16;
    let increment2 = bits_value(bits, 134, 10) as u16;
    let mmsi = bits_value(bits, 8, 30) as u32;
    let mmsi1 = bits_value(bits, 40, 30) as u32;
    let offset1 = bits_value(bits, 70, 12) as u16;
    let increment1 = bits_value(bits, 82, 10) as u16;
    AssignmentModeCommand {
        own_vessel,
        station,
        assigned_for_single_station: n < 144,
        mmsi,
        mmsi1,
        offset1,
        increment1,
        mmsi2: if n >= 144 {
            Some(mmsi2)
        } else {
            None
        },
        offset2: if n >= 144 {
            Some(offset2)
        } else {
            None
        },
        increment2: if n >= 144 {
            Some(increment2)
        } else {
            None
        },
    }
}

/// Whether `r` is what decoding a type 16 message of these bits gives.
pub open spec fn decodes(
    bits: Seq<bool>,
    station: Station,
    own_vessel: bool,
    r: Result<ParsedMessage, ParseError>,
) -> bool {
    r == Ok::<ParsedMessage, ParseError>(
        ParsedMessage::AssignmentModeCommand(assignment_command(bits, station, own_vessel)),
    )
}

/// Decodes an assignment mode command.
pub fn handle(
    bv: &BitSequence,
    station: Station,
    own_vessel: bool,
) -> (r: Result<ParsedMessage, ParseError>)
    ensures
        decodes(bit_seq(bv), station, own_vessel, r),
{
    let n: usize = bits_len(bv);
    let mmsi2: u32 = pick_u32(bv, 92, 30);
    let offset2: u16 = pick_u16(bv, 122, 12);
    let increment2: u16 = pick_u16(bv, 134, 10);
    let mmsi: u32 = pick_u32(bv, 8, 30);
    let mmsi1: u32 = pick_u32(bv, 40, 30);
    let offset1: u16 = pick_u16(bv, 70, 12);
    let increment1: u16 = pick_u16(bv, 82, 10);
    Ok(
        ParsedMessage::AssignmentModeCommand(
            AssignmentModeCommand {
                own_vessel,
                station,
                assigned_for_single_station: n < 144,
                mmsi,
                mmsi1,
                offset1,
                increment1,
                mmsi2: if n >= 144 {
                    Some(mmsi2)
                } else {
                    None
                },
                offset2: if n >= 144 {
                    Some(offset2)
                } else {
                    None
                },
                increment2: if n >= 144 {
                    Some(increment2)
                } else {
                    None
                },
            },
        ),
    )
}

} // verus!
