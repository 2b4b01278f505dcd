//! AIS type 22: channel management.

use crate::ParsedMessage;
use crate::ais::Station;
use crate::bitseq::{bit_seq, BitSequence};
use crate::error::ParseError;
use crate::util::{
    bits_signed_value, bits_value, flag, pick_flag, pick_i32, pick_u16, pick_u32, pick_u8,
};
use vstd::arithmetic::power2::lemma2_to64;
use vstd::prelude::*;

verus! {

/// A channel management message: AIS type 22.
#[derive(Clone, Debug, PartialEq, Default)]
pub struct ChannelManagement {
    /// True for a message of the own vessel, false for one of another.
    pub own_vessel: bool,
    /// The kind of AIS station.
    pub station: Station,
    /// User id of the sending station, 30 bits.
    pub mmsi: u32,
    /// Channel A number.
    pub channel_a: u16,
    /// Channel B number.
    pub channel_b: u16,
    /// Transmit and receive mode, 4 bits.
    pub txrx: u8,
    /// True for low power, false for high.
    pub power: bool,
    /// North-east corner latitude, in 1/10000 of a minute of arc; for a
    /// broadcast message.
    pub ne_lat_min10000: Option<i32>,
    /// North-east corner longitude, in 1/10000 of a minute of arc; for a
    /// broadcast message.
    pub ne_lon_min10000: Option<i32>,
    /// South-west corner latitude, in 1/10000 of a minute of arc; for a
    /// broadcast message.
    pub sw_lat_min10000: Option<i32>,
    /// South-west corner longitude, in 1/10000 of a minute of arc; for a
    /// broadcast message.
    pub sw_lon_min10000: Option<i32>,
    /// First station addressed; for an addressed message.
    pub dest1_mmsi: Option<u32>,
    /// Second station addressed; for an addressed message.
    pub dest2_mmsi: Option<u32>,
    /// True for an addressed message, false for a broadcast one.
    pub addressed: bool,
    /// Channel A bandwidth.
    pub channel_a_band: bool,
    /// Channel B bandwidth.
    pub channel_b_band: bool,
    /// Size of the transitional zone, 3 bits.
    pub zonesize: u8,
}

/// The channel management message that the bits of a type 22 message hold.
/// Corner positions come in tenths of a minute.
pub open spec fn channel_management(
    bits: Seq<bool>,
    station: Station,
    own_vessel: bool,
) -> ChannelManagement {
    let addressed = flag(bits, 139);
    let ne_lat = bits_signed_value(bits, 87, 17) as i32;
    let ne_lon = bits_signed_value(bits, 69, 18) as i32;
    let sw_lat = bits_signed_value(bits, 122, 17) as i32;
    let sw_lon = bits_signed_value(bits, 104, 18) as i32;
    let dest1 = bits_value(bits, 69, 30) as u32;
    let dest2 = bits_value(bits, 104, 30) as u32;
    let mmsi = bits_value(bits, 8, 30) as u32;
    let channel_a = bits_value(bits, 40, 12) as u16;
    let channel_b = bits_value(bits, 52, 12) as u16;
    let txrx = bits_value(bits, 64, 4) as u8;
    let power = flag(bits, 68);
    let channel_a_band = flag(bits, 140);
    let channel_b_band = flag(bits, 141);
    let zonesize = bits_value(bits, 142, 3) as u8;
    ChannelManagement {
        own_vessel,
        station,
        mmsi,
        channel_a,
        channel_b,
        txrx,
        power,
        ne_lat_min10000: if !addressed {
            Some((ne_lat * 1000) as i32)
        } else {
            None
        },
        ne_lon_min10000: if !addressed {
            Some((ne_lon * 1000) as i32)
        } else {
            None
        },
        sw_lat_min10000: if !addressed {
            Some((sw_lat * 1000) as i32)
        } else {
            None
        },
        sw_lon_min10000: if !addressed {
            Some((sw_lon * 1000) as i32)
        } else {
            None
        },
        dest1_mmsi: if addressed {
            Some(dest1)
        } else {
            None
        },
        dest2_mmsi: if addressed {
            Some(dest2)
        } else {
            None
        },
        addressed,
        channel_a_band,
        channel_b_band,
        zonesize,
    }
}

/// Whether `r` is what decoding a type 22 message of these bits gives.
pub open spec fn decodes(
    bits: Seq<bool>,
    station: Station,
    own_vessel: bool,
    r: Result<ParsedMessage, ParseError>,
) -> bool {
    r == Ok::<ParsedMessage, ParseError>(
        ParsedMessage::ChannelManagement(channel_management(bits, station, own_vessel)),
    )
}

/// Decodes a channel management message.
pub fn handle(
    bv: &BitSequence,
    station: Station,
    own_vessel: bool,
) -> (r: Result<ParsedMessage, ParseError>)
    ensures
        decodes(bit_seq(bv), station, own_vessel, r),
{
    proof {
        lemma2_to64();
    }
    let addressed: bool = pick_flag(bv, 139);
    let ne_lat: i32 = pick_i32(bv, 87, 17);
    let ne_lon: i32 = pick_i32(bv, 69, 18);
    let sw_lat: i32 = pick_i32(bv, 122, 17);
    let sw_lon: i32 = pick_i32(bv, 104, 18);
    let dest1: u32 = pick_u32(bv, 69, 30);
    let dest2: u32 = pick_u32(bv, 104, 30);
    let mmsi: u32 = pick_u32(bv, 8, 30);
    let channel_a: u16 = pick_u16(bv, 40, 12);
    let channel_b: u16 = pick_u16(bv, 52, 12);
    let txrx: u8 = pick_u8(bv, 64, 4);
    let power: bool = pick_flag(bv, 68);
    let channel_a_band: bool = pick_flag(bv, 140);
    let channel_b_band: bool = pick_flag(bv, 141);
    let zonesize: u8 = pick_u8(bv, 142, 3);
    Ok(
        ParsedMessage::ChannelManagement(
            ChannelManagement {
                own_vessel,
                station,
                mmsi,
                channel_a,
                channel_b,
                txrx,
                power,
                ne_lat_min10000: if !addressed {
                    Some(ne_lat * 1000)
                } else {
                    None
                },
                ne_lon_min10000: if !addressed {
                    Some(ne_lon * 1000)
                } else {
                    None
                },
                sw_lat_min10000: if !addressed {
                    Some(sw_lat * 1000)
                } else {
                    None
                },
                sw_lon_min10000: if !addressed {
                    Some(sw_lon * 1000)
                } else {
                    None
                },
                dest1_mmsi: if addressed {
                    Some(dest1)
                } else {
                    None
                },
                dest2_mmsi: if addressed {
                    Some(dest2)
                } else {
                    None
                },
                addressed,
                channel_a_band,
                channel_b_band,
                zonesize,
            },
        ),
    )
}

} // verus!
