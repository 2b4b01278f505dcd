//! AIS type 11: UTC and date response.

use crate::ParsedMessage;
use crate::ais::Station;
use crate::ais::vdm_t4::{base_station_report, decode, report_time, report_time_error};
use crate::bitseq::{bit_seq, BitSequence};
use crate::error::ParseError;
use vstd::prelude::*;

verus! {

/// Whether `r` is what decoding a type 11 message of these bits gives.
pub open spec fn decodes(
    bits: Seq<bool>,
    station: Station,
    own_vessel: bool,
    r: Result<ParsedMessage, ParseError>,
) -> bool {
    if report_time(bits).wf() {
        r == Ok::<ParsedMessage, ParseError>(
            ParsedMessage::UtcDateResponse(base_station_report(bits, station, own_vessel)),
        )
    } else {
        &&& r is Err
        &&& r.unwrap_err() is InvalidSentence
        &&& r.unwrap_err().text() == report_time_error(bits)
    }
}

/// Decodes a UTC and date response, which is laid out as a base station
/// report is.
pub fn handle(
    bv: &BitSequence,
    station: Station,
    own_vessel: bool,
) -> (r: Result<ParsedMessage, ParseError>)
    ensures
        decodes(bit_seq(bv), station, own_vessel, r),
{
    match decode(bv, station, own_vessel) {
        Ok(report) => Ok(ParsedMessage::UtcDateResponse(report)),
        Err(e) => Err(e),
    }
}

} // verus!
