//! AIS type 6: addressed binary message.

use crate::ParsedMessage;
use crate::ais::Station;
use crate::bitseq::{bit_seq, BitSequence};
use crate::error::ParseError;
use crate::util::{bits_value, flag, pick_flag, pick_u16, pick_u32, pick_u8};
use vstd::prelude::*;

verus! {

/// An addressed binary message: AIS type 6.
#[derive(Clone, Debug, PartialEq, Default)]
pub struct BinaryAddressedMessage {
    /// True for a message of the own vessel, false for one of another.
    pub own_vessel: bool,
    /// The kind of AIS station.
    pub station: Station,
    /// User id, 30 bits.
    pub mmsi: u32,
    /// Sequence number, 2 bits.
    pub sequence_number: u8,
    /// User id of the station addressed, 30 bits.
    pub destination_mmsi: u32,
    /// True for a retransmission.
    pub retransmit_flag: bool,
    /// Designated area code, 10 bits.
    pub dac: u16,
    /// Functional id, 6 bits.
    pub fid: u8,
}

/// The addressed binary message that the bits of a type 6 message hold.
pub open spec fn binary_addressed_message(
    bits: Seq<bool>,
    station: Station,
    own_vessel: bool,
) -> BinaryAddressedMessage {
    let mmsi = bits_value(bits, 8, 30) as u32;
    let sequence_number = bits_value(bits, 38, 2) as u8;
    let destination_mmsi = bits_value(bits, 40, 30) as u32;
    let retransmit_flag = flag(bits, 70);
    let dac = bits_value(bits, 72, 10) as u16;
    let fid = bits_value(bits, 82, 6) as u8;
    BinaryAddressedMessage {
        own_vessel,
        station,
        mmsi,
        sequence_number,
        destination_mmsi,
        retransmit_flag,
        dac,
        fid,
    }
}

/// Whether `r` is what decoding a type 6 message of these bits gives.
pub open spec fn decodes(
    bits: Seq<bool>,
    station: Station,
    own_vessel: bool,
    r: Result<ParsedMessage, ParseError>,
) -> bool {
    r == Ok::<ParsedMessage, ParseError>(
        ParsedMessage::BinaryAddressedMessage(binary_addressed_message(bits, station, own_vessel)),
    )
}

/// Decodes an addressed binary message.
pub fn handle(
    bv: &BitSequence,
    station: Station,
    own_vessel: bool,
) -> (r: Result<ParsedMessage, ParseError>)
    ensures
        decodes(bit_seq(bv), station, own_vessel, r),
{
    let mmsi: u32 = pick_u32(bv, 8, 30);
    let sequence_number: u8 = pick_u8(bv, 38, 2);
    let destination_mmsi: u32 = pick_u32(bv, 40, 30);
    let retransmit_flag: bool = pick_flag(bv, 70);
    let dac: u16 = pick_u16(bv, 72, 10);
    let fid: u8 = pick_u8(bv, 82, 6);
    Ok(
        ParsedMessage::BinaryAddressedMessage(
            BinaryAddressedMessage {
                own_vessel,
                station,
                mmsi,
                sequence_number,
                destination_mmsi,
                retransmit_flag,
                dac,
                fid,
            },
        ),
    )
}

} // verus!
