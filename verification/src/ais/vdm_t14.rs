//! AIS type 14: safety related broadcast message.

use crate::ParsedMessage;
use crate::ais::Station;
use crate::bitseq::{bit_seq, BitSequence};
use crate::error::ParseError;
use crate::util::{bits_text, bits_value, pick_string, pick_u32};
use vstd::prelude::*;

verus! {

/// A safety related broadcast message: AIS type 14.
#[derive(Clone, Debug, PartialEq, Default)]
pub struct SafetyRelatedBroadcastMessage {
    /// True for a message of the own vessel, false for one of another.
    pub own_vessel: bool,
    /// The kind of AIS station.
    pub station: Station,
    /// User id of the sending station, 30 bits.
    pub mmsi: u32,
    /// The text, up to 161 characters.
    pub text: String,
}

/// Whether `m` is the broadcast message that the bits of a type 14 message
/// hold.
pub open spec fn is_safety_broadcast(
    bits: Seq<bool>,
    station: Station,
    own_vessel: bool,
    m: SafetyRelatedBroadcastMessage,
) -> bool {
    let mmsi = bits_value(bits, 8, 30) as u32;
    &&& m.own_vessel == own_vessel
    &&& m.station == station
    &&& m.mmsi == mmsi
    &&& m.text@ == bits_text(bits, 40, 161)
}

/// Whether `r` is what decoding a type 14 message of these bits gives.
pub open spec fn decodes(
    bits: Seq<bool>,
    station: Station,
    own_vessel: bool,
    r: Result<ParsedMessage, ParseError>,
) -> bool {
    match r {
        Ok(ParsedMessage::SafetyRelatedBroadcastMessage(m)) => is_safety_broadcast(
            bits,
            station,
            own_vessel,
            m,
        ),
        _ => false,
    }
}

/// Decodes a safety related broadcast message.
pub fn handle(
    bv: &BitSequence,
    station: Station,
    own_vessel: bool,
) -> (r: Result<ParsedMessage, ParseError>)
    ensures
        decodes(bit_seq(bv), station, own_vessel, r),
{
    let mmsi: u32 = pick_u32(bv, 8, 30);
    Ok(
        ParsedMessage::SafetyRelatedBroadcastMessage(
            SafetyRelatedBroadcastMessage {
                own_vessel,
                station,
                mmsi,
                text: pick_string(bv, 40, 161),
            },
        ),
    )
}

} // verus!
