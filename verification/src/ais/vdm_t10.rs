//! AIS type 10: UTC and date inquiry.

use crate::ParsedMessage;
use crate::ais::Station;
use crate::bitseq::{bit_seq, BitSequence};
use crate::error::ParseError;
use crate::util::{bits_value, pick_u32};
use vstd::prelude::*;

verus! {

/// An inquiry for the UTC time and date: AIS type 10.
#[derive(Clone, Debug, PartialEq, Default)]
pub struct UtcDateInquiry {
    /// True for a message of the own vessel, false for one of another.
    pub own_vessel: bool,
    /// The kind of AIS station.
    pub station: Station,
    /// User id of the asking station, 30 bits.
    pub source_mmsi: u32,
    /// User id of the station asked, 30 bits.
    pub destination_mmsi: u32,
}

/// The inquiry that the bits of a type 10 message hold.
pub open spec fn utc_date_inquiry(
    bits: Seq<bool>,
    station: Station,
    own_vessel: bool,
) -> UtcDateInquiry {
    let source_mmsi = bits_value(bits, 8, 30) as u32;
    let destination_mmsi = bits_value(bits, 40, 30) as u32;
    UtcDateInquiry {
        own_vessel,
        station,
        source_mmsi,
        destination_mmsi,
    }
}

/// Whether `r` is what decoding a type 10 message of these bits gives.
pub open spec fn decodes(
    bits: Seq<bool>,
    station: Station,
    own_vessel: bool,
    r: Result<ParsedMessage, ParseError>,
) -> bool {
    r == Ok::<ParsedMessage, ParseError>(
        ParsedMessage::UtcDateInquiry(utc_date_inquiry(bits, station, own_vessel)),
    )
}

/// Decodes an inquiry for the UTC time and date.
pub fn handle(
    bv: &BitSequence,
    station: Station,
    own_vessel: bool,
) -> (r: Result<ParsedMessage, ParseError>)
    ensures
        decodes(bit_seq(bv), station, own_vessel, r),
{
    let source_mmsi: u32 = pick_u32(bv, 8, 30);
    let destination_mmsi: u32 = pick_u32(bv, 40, 30);
    Ok(
        ParsedMessage::UtcDateInquiry(
            UtcDateInquiry {
                own_vessel,
                station,
                source_mmsi,
                destination_mmsi,
            },
        ),
    )
}

} // verus!
