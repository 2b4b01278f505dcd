//! AIS type 13: safety related acknowledgement.

use crate::ParsedMessage;
use crate::ais::Station;
use crate::bitseq::{bit_seq, BitSequence};
use crate::error::ParseError;
use crate::util::{bits_value, pick_u32, pick_u8};
use vstd::prelude::*;

verus! {

/// An acknowledgement of safety related messages: AIS type 13.
#[derive(Clone, Debug, PartialEq, Default)]
pub struct SafetyRelatedAcknowledgement {
    /// True for a message of the own vessel, false for one of another.
    pub own_vessel: bool,
    /// The kind of AIS station.
    pub station: Station,
    /// User id of the acknowledging station, 30 bits.
    pub source_mmsi: u32,
    /// First station acknowledged.
    pub mmsi1: u32,
    /// Sequence number for the first station.
    pub mmsi1_seq: u8,
    /// Second station acknowledged.
    pub mmsi2: u32,
    /// Sequence number for the second station.
    pub mmsi2_seq: u8,
    /// Third station acknowledged.
    pub mmsi3: u32,
    /// Sequence number for the third station.
    pub mmsi3_seq: u8,
    /// Fourth station acknowledged.
    pub mmsi4: u32,
    /// Sequence number for the fourth station.
    pub mmsi4_seq: u8,
}

/// The acknowledgement that the bits of a type 13 message hold.
pub open spec fn safety_acknowledgement(
    bits: Seq<bool>,
    station: Station,
    own_vessel: bool,
) -> SafetyRelatedAcknowledgement {
    let source_mmsi = bits_value(bits, 8, 30) as u32;
    let mmsi1 = bits_value(bits, 40, 30) as u32;
    let mmsi1_seq = bits_value(bits, 70, 2) as u8;
    let mmsi2 = bits_value(bits, 72, 30) as u32;
    let mmsi2_seq = bits_value(bits, 102, 2) as u8;
    let mmsi3 = bits_value(bits, 104, 30) as u32;
    let mmsi3_seq = bits_value(bits, 134, 2) as u8;
    let mmsi4 = bits_value(bits, 136, 30) as u32;
    let mmsi4_seq = bits_value(bits, 166, 2) as u8;
    SafetyRelatedAcknowledgement {
        own_vessel,
        station,
        source_mmsi,
        mmsi1,
        mmsi1_seq,
        mmsi2,
        mmsi2_seq,
        mmsi3,
        mmsi3_seq,
        mmsi4,
        mmsi4_seq,
    }
}

/// Whether `r` is what decoding a type 13 message of these bits gives.
pub open spec fn decodes(
    bits: Seq<bool>,
    station: Station,
    own_vessel: bool,
    r: Result<ParsedMessage, ParseError>,
) -> bool {
    r == Ok::<ParsedMessage, ParseError>(
        ParsedMessage::SafetyRelatedAcknowledgement(
            safety_acknowledgement(bits, station, own_vessel),
        ),
    )
}

/// Decodes an acknowledgement of safety related messages.
pub fn handle(
    bv: &BitSequence,
    station: Station,
    own_vessel: bool,
) -> (r: Result<ParsedMessage, ParseError>)
    ensures
        decodes(bit_seq(bv), station, own_vessel, r),
{
    let source_mmsi: u32 = pick_u32(bv, 8, 30);
    let mmsi1: u32 = pick_u32(bv, 40, 30);
    let mmsi1_seq: u8 = pick_u8(bv, 70, 2);
    let mmsi2: u32 = pick_u32(bv, 72, 30);
    let mmsi2_seq: u8 = pick_u8(bv, 102, 2);
    let mmsi3: u32 = pick_u32(bv, 104, 30);
    let mmsi3_seq: u8 = pick_u8(bv, 134, 2);
    let mmsi4: u32 = pick_u32(bv, 136, 30);
    let mmsi4_seq: u8 = pick_u8(bv, 166, 2);
    Ok(
        ParsedMessage::SafetyRelatedAcknowledgement(
            SafetyRelatedAcknowledgement {
                own_vessel,
                station,
                source_mmsi,
                mmsi1,
                mmsi1_seq,
                mmsi2,
                mmsi2_seq,
                mmsi3,
                mmsi3_seq,
                mmsi4,
                mmsi4_seq,
            },
        ),
    )
}

} // verus!
