//! AIS type 17: DGNSS broadcast binary message.

use crate::ParsedMessage;
use crate::ais::Station;
use crate::bitseq::{bit_seq, bits_len, BitSequence};
use crate::error::ParseError;
use crate::util::{bits_range, bits_signed_value, bits_value, pick_bits, pick_i32, pick_u32};
use vstd::arithmetic::power2::lemma2_to64;
use vstd::prelude::*;

verus! {

/// A broadcast of differential GNSS corrections: AIS type 17.
#[derive(Clone, Debug, PartialEq)]
pub struct DgnssBroadcastBinaryMessage {
    /// True for a message of the own vessel, false for one of another.
    pub own_vessel: bool,
    /// The kind of AIS station.
    pub station: Station,
    /// User id of the sending station, 30 bits.
    pub mmsi: u32,
    /// Latitude, in 1/10000 of a minute of arc, north positive.
    pub latitude_min10000: Option<i32>,
    /// Longitude, in 1/10000 of a minute of arc, east positive.
    pub longitude_min10000: Option<i32>,
    /// The correction data: the bits from bit 80 on.
    pub payload: Vec<bool>,
}

/// Whether `m` is the broadcast that the bits of a type 17 message hold.
/// The position comes in tenths of a minute.
pub open spec fn is_dgnss_broadcast(
    bits: Seq<bool>,
    station: Station,
    own_vessel: bool,
    m: DgnssBroadcastBinaryMessage,
) -> bool {
    let n = bits.len();
    let lat = bits_signed_value(bits, 58, 17) as i32;
    let lon = bits_signed_value(bits, 40, 18) as i32;
    let mmsi = bits_value(bits, 8, 30) as u32;
    &&& m.own_vessel == own_vessel
    &&& m.station == station
    &&& m.mmsi == mmsi
    &&& m.latitude_min10000 == (if lat != 0xd548 {
        Some((lat * 1000) as i32)
    } else {
        None
    })
    &&& m.longitude_min10000 == (if lon != 0x1a838 {
        Some((lon * 1000) as i32)
    } else {
        None
    })
    &&& m.payload@ == bits_range(bits, 80, n as int)
}

/// Whether `r` is what decoding a type 17 message of these bits gives.
pub open spec fn decodes(
    bits: Seq<bool>,
    station: Station,
    own_vessel: bool,
    r: Result<ParsedMessage, ParseError>,
) -> bool {
    match r {
        Ok(ParsedMessage::DgnssBroadcastBinaryMessage(m)) => is_dgnss_broadcast(
            bits,
            station,
            own_vessel,
            m,
        ),
        _ => false,
    }
}

/// Decodes a broadcast of differential GNSS corrections.
pub fn handle(
    bv: &BitSequence,
    station: Station,
    own_vessel: bool,
) -> (r: Result<ParsedMessage, ParseError>)
    ensures
        decodes(bit_seq(bv), station, own_vessel, r),
{
    proof {
        lemma2_to64();
    }
    let n: usize = bits_len(bv);
    let lat: i32 = pick_i32(bv, 58, 17);
    let lon: i32 = pick_i32(bv, 40, 18);
    let mmsi: u32 = pick_u32(bv, 8, 30);
    Ok(
        ParsedMessage::DgnssBroadcastBinaryMessage(
            DgnssBroadcastBinaryMessage {
                own_vessel,
                station,
                mmsi,
                latitude_min10000: if lat != 0xd548 {
                    Some(lat * 1000)
                } else {
                    None
                },
                longitude_min10000: if lon != 0x1a838 {
                    Some(lon * 1000)
                } else {
                    None
                },
                payload: pick_bits(bv, 80, n),
            },
        ),
    )
}

} // verus!
