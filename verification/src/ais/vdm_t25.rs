//! AIS type 25: single slot binary message.

use crate::ParsedMessage;
use crate::ais::Station;
use crate::bitseq::{bit_seq, bits_len, BitSequence};
use crate::error::ParseError;
use crate::util::{bits_range, bits_value, flag, pick_bits, pick_flag, pick_u16, pick_u32};
use vstd::prelude::*;

verus! {

/// A binary message of one slot: AIS type 25.
#[derive(Clone, Debug, PartialEq, Default)]
pub struct SingleSlotBinaryMessage {
    /// True for a message of the own vessel, false for one of another.
    pub own_vessel: bool,
    /// The kind of AIS station.
    pub station: Station,
    /// User id of the sending station, 30 bits.
    pub mmsi: u32,
    /// The station addressed, where the message is addressed.
    pub dest_mmsi: Option<u32>,
    /// The application id, where the message is broadcast and structured.
    pub app_id: Option<u16>,
    /// The data: the bits after the fields above.
    pub data: Vec<bool>,
}

/// Where the data of a binary message starts: after the address of an
/// addressed one, after the application id of a structured broadcast one,
/// else after the two flags.
pub open spec fn data_start(addressed: bool, structured: bool) -> int {
    if addressed {
        70
    } else if structured {
        86
    } else {
        40
    }
}

/// Whether `m` is the binary message that the bits of a type 25 message
/// hold.
pub open spec fn is_single_slot_message(
    bits: Seq<bool>,
    station: Station,
    own_vessel: bool,
    m: SingleSlotBinaryMessage,
) -> bool {
    let n = bits.len();
    let addressed = flag(bits, 38);
    let structured = flag(bits, 39);
    let dest = bits_value(bits, 40, 30) as u32;
    let app = bits_value(bits, 70, 16) as u16;
    let start = data_start(addressed, structured);
    let mmsi = bits_value(bits, 8, 30) as u32;
    &&& m.own_vessel == own_vessel
    &&& m.station == station
    &&& m.mmsi == mmsi
    &&& m.dest_mmsi == (if addressed {
        Some(dest)
    } else {
        None
    })
    &&& m.app_id == (if !addressed && structured {
        Some(app)
    } else {
        None
    })
    &&& m.data@ == bits_range(bits, start, n as int)
}

/// Whether `r` is what decoding a type 25 message of these bits gives.
pub open spec fn decodes(
    bits: Seq<bool>,
    station: Station,
    own_vessel: bool,
    r: Result<ParsedMessage, ParseError>,
) -> bool {
    match r {
        Ok(ParsedMessage::SingleSlotBinaryMessage(m)) => is_single_slot_message(
            bits,
            station,
            own_vessel,
            m,
        ),
        _ => false,
    }
}

/// Decodes a binary message of one slot.
pub fn handle(
    bv: &BitSequence,
    station: Station,
    own_vessel: bool,
) -> (r: Result<ParsedMessage, ParseError>)
    ensures
        decodes(bit_seq(bv), station, own_vessel, r),
{
    let n: usize = bits_len(bv);
    let addressed: bool = pick_flag(bv, 38);
    let structured: bool = pick_flag(bv, 39);
    let dest: u32 = pick_u32(bv, 40, 30);
    let app: u16 = pick_u16(bv, 70, 16);
    let start: usize = if addressed {
        70
    } else if structured {
        86
    } else {
        40
    };
    let mmsi: u32 = pick_u32(bv, 8, 30);
    Ok(
        ParsedMessage::SingleSlotBinaryMessage(
            SingleSlotBinaryMessage {
                own_vessel,
                station,
                mmsi,
                dest_mmsi: if addressed {
                    Some(dest)
                } else {
                    None
                },
                app_id: if !addressed && structured {
                    Some(app)
                } else {
                    None
                },
                data: pick_bits(bv, start, n),
            },
        ),
    )
}

} // verus!
