//! AIS type 12: addressed safety related message.

use crate::ParsedMessage;
use crate::ais::Station;
use crate::bitseq::{bit_seq, BitSequence};
use crate::error::ParseError;
use crate::util::{bits_text, bits_value, flag, pick_flag, pick_string, pick_u32, pick_u8};
use vstd::prelude::*;

verus! {

/// An addressed safety related message: AIS type 12.
#[derive(Clone, Debug, PartialEq, Default)]
pub struct AddressedSafetyRelatedMessage {
    /// True for a message of the own vessel, false for one of another.
    pub own_vessel: bool,
    /// The kind of AIS station.
    pub station: Station,
    /// User id of the sending station, 30 bits.
    pub source_mmsi: u32,
    /// Sequence number, 2 bits.
    pub sequence_number: u8,
    /// User id of the station addressed, 30 bits.
    pub destination_mmsi: u32,
    /// True for a retransmission.
    pub retransmit_flag: bool,
    /// The text, up to 156 characters.
    pub text: String,
}

/// Whether `m` is the safety related message that the bits of a type 12
/// message hold.
pub open spec fn is_addressed_safety_message(
    bits: Seq<bool>,
    station: Station,
    own_vessel: bool,
    m: AddressedSafetyRelatedMessage,
) -> bool {
    let source_mmsi = bits_value(bits, 8, 30) as u32;
    let sequence_number = bits_value(bits, 38, 2) as u8;
    let destination_mmsi = bits_value(bits, 40, 30) as u32;
    let retransmit_flag = flag(bits, 70);
    &&& m.own_vessel == own_vessel
    &&& m.station == station
    &&& m.source_mmsi == source_mmsi
    &&& m.sequence_number == sequence_number
    &&& m.destination_mmsi == destination_mmsi
    &&& m.retransmit_flag == retransmit_flag
    &&& m.text@ == bits_text(bits, 72, 156)
}

/// Whether `r` is what decoding a type 12 message of these bits gives.
pub open spec fn decodes(
    bits: Seq<bool>,
    station: Station,
    own_vessel: bool,
    r: Result<ParsedMessage, ParseError>,
) -> bool {
    match r {
        Ok(ParsedMessage::AddressedSafetyRelatedMessage(m)) => is_addressed_safety_message(
            bits,
            station,
            own_vessel,
            m,
        ),
        _ => false,
    }
}

/// Decodes an addressed safety related message.
pub fn handle(
    bv: &BitSequence,
    station: Station,
    own_vessel: bool,
) -> (r: Result<ParsedMessage, ParseError>)
    ensures
        decodes(bit_seq(bv), station, own_vessel, r),
{
    let source_mmsi: u32 = pick_u32(bv, 8, 30);
    let sequence_number: u8 = pick_u8(bv, 38, 2);
    let destination_mmsi: u32 = pick_u32(bv, 40, 30);
    let retransmit_flag: bool = pick_flag(bv, 70);
    Ok(
        ParsedMessage::AddressedSafetyRelatedMessage(
            AddressedSafetyRelatedMessage {
                own_vessel,
                station,
                source_mmsi,
                sequence_number,
                destination_mmsi,
                retransmit_flag,
                text: pick_string(bv, 72, 156),
            },
        ),
    )
}

} // verus!
