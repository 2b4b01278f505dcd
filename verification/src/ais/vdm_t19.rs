//! AIS type 19: extended position report of a class B station.

use crate::ParsedMessage;
use crate::ais::Station;
use crate::bitseq::{bit_seq, BitSequence};
use crate::error::{unsupported, ParseError};
use vstd::prelude::*;

verus! {

/// Whether `r` is what decoding a type 19 message of these bits gives.
pub open spec fn decodes(
    bits: Seq<bool>,
    station: Station,
    own_vessel: bool,
    r: Result<ParsedMessage, ParseError>,
) -> bool {
    &&& r is Err
    &&& r.unwrap_err() is UnsupportedSentenceType
    &&& r.unwrap_err().text() == "Unsupported AIVDM message type: 19"@
}

/// Answers a type 19 message, which is not decoded: always an
/// `UnsupportedSentenceType` error.
pub fn handle(
    bv: &BitSequence,
    station: Station,
    own_vessel: bool,
) -> (r: Result<ParsedMessage, ParseError>)
    ensures
        decodes(bit_seq(bv), station, own_vessel, r),
{
    Err(unsupported("Unsupported AIVDM message type: 19"))
}

} // verus!
