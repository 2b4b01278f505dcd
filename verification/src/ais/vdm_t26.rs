//! AIS type 26: multiple slot binary message.

use crate::ParsedMessage;
use crate::ais::{vdm_t25::data_start, Station};
use crate::bitseq::{bit_seq, bits_len, BitSequence};
use crate::error::ParseError;
use crate::util::{bits_range, bits_value, flag, pick_bits, pick_flag, pick_u16, pick_u32};
use vstd::prelude::*;

verus! {

/// A binary message of several slots: AIS type 26.
#[derive(Clone, Debug, PartialEq, Default)]
pub struct MultipleSlotBinaryMessage {
    /// True for a message of the own vessel, false for one of another.
    pub own_vessel: bool,
    /// The kind of AIS station.
    pub station: Station,
    /// User id of the sending station, 30 bits.
    pub mmsi: u32,
    /// The station addressed, where the message is addressed.
    pub dest_mmsi: Option<u32>,
    /// The application id, where the message is broadcast and structured.
    pub app_id: Option<u16>,
    /// The data: the bits between the fields above and the radio status.
    pub data: Vec<bool>,
    /// The radio status: the last 20 bits.
    pub radio: u32,
}

/// Where the radio status of a message of `n` bits starts: 20 bits
/// before its end, or at its start where it is shorter.
pub open spec fn radio_start(n: nat) -> int {
    if n >= 20 {
        n - 20
    } else {
        0
    }
}

/// Whether `m` is the binary message that the bits of a type 26 message
/// hold.
pub open spec fn is_multiple_slot_message(
    bits: Seq<bool>,
    station: Station,
    own_vessel: bool,
    m: MultipleSlotBinaryMessage,
) -> bool {
    let n = bits.len();
    let addressed = flag(bits, 38);
    let structured = flag(bits, 39);
    let dest = bits_value(bits, 40, 30) as u32;
    let app = bits_value(bits, 70, 16) as u16;
    let start = data_start(addressed, structured);
    let end = radio_start(n);
    let mmsi = bits_value(bits, 8, 30) as u32;
    let radio = bits_value(bits, end, 20) as u32;
    &&& m.own_vessel == own_vessel
    &&& m.station == station
    &&& m.mmsi == mmsi
    &&& m.dest_mmsi == (if addressed {
        Some(dest)
    } else {
        None
    })
    &&& m.app_id == (if !addressed && structured {
        Some(app)
    } else {
        None
    })
    &&& m.data@ == bits_range(bits, start, end)
    &&& m.radio == radio
}

/// Whether `r` is what decoding a type 26 message of these bits gives.
pub open spec fn decodes(
    bits: Seq<bool>,
    station: Station,
    own_vessel: bool,
    r: Result<ParsedMessage, ParseError>,
) -> bool {
    match r {
        Ok(ParsedMessage::MultipleSlotBinaryMessage(m)) => is_multiple_slot_message(
            bits,
            station,
            own_vessel,
            m,
        ),
        _ => false,
    }
}

/// Decodes a binary message of several slots.
pub fn handle(
    bv: &BitSequence,
    station: Station,
    own_vessel: bool,
) -> (r: Result<ParsedMessage, ParseError>)
    ensures
        decodes(bit_seq(bv), station, own_vessel, r),
{
    let n: usize = bits_len(bv);
    let addressed: bool = pick_flag(bv, 38);
    let structured: bool = pick_flag(bv, 39);
    let dest: u32 = pick_u32(bv, 40, 30);
    let app: u16 = pick_u16(bv, 70, 16);
    let start: usize = if addressed {
        70
    } else if structured {
        86
    } else {
        40
    };
    let end: usize = if n >= 20 {
        n - 20
    } else {
        0
    };
    let mmsi: u32 = pick_u32(bv, 8, 30);
    let radio: u32 = pick_u32(bv, end, 20);
    Ok(
        ParsedMessage::MultipleSlotBinaryMessage(
            MultipleSlotBinaryMessage {
                own_vessel,
                station,
                mmsi,
                dest_mmsi: if addressed {
                    Some(dest)
                } else {
                    None
                },
                app_id: if !addressed && structured {
                    Some(app)
                } else {
                    None
                },
                data: pick_bits(bv, start, end),
                radio,
            },
        ),
    )
}

} // verus!
