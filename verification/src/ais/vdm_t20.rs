//! AIS type 20: data link management message.

use crate::ParsedMessage;
use crate::ais::{vdm_t15::InterrogationCase, Station};
use crate::bitseq::{bit_seq, BitSequence};
use crate::error::ParseError;
use crate::util::{bits_value, pick_u16, pick_u32, pick_u8};
use vstd::prelude::*;

verus! {

/// A data link management message: AIS type 20.
#[derive(Clone, Debug, PartialEq)]
pub struct DataLinkManagementMessage {
    /// True for a message of the own vessel, false for one of another.
    pub own_vessel: bool,
    /// The kind of AIS station.
    pub station: Station,
    /// Which of the four layouts the length of the message gives.
    pub case: InterrogationCase,
    /// User id of the sending station, 30 bits.
    pub mmsi: u32,
    /// Offset number 1.
    pub offset1: u16,
    /// Number of slots reserved from offset 1.
    pub number1: u8,
    /// Timeout of reservation 1, in minutes.
    pub timeout1: u8,
    /// Increment of reservation 1: the low 8 bits of the field.
    pub increment1: u8,
    /// Offset number 2.
    pub offset2: u16,
    /// Number of slots reserved from offset 2.
    pub number2: u8,
    /// Timeout of reservation 2, in minutes.
    pub timeout2: u8,
    /// Increment of reservation 2: the low 8 bits of the field.
    pub increment2: u8,
    /// Offset number 3.
    pub offset3: u16,
    /// Number of slots reserved from offset 3.
    pub number3: u8,
    /// Timeout of reservation 3, in minutes.
    pub timeout3: u8,
    /// Increment of reservation 3: the low 8 bits of the field.
    pub increment3: u8,
    /// Offset number 4.
    pub offset4: u16,
    /// Number of slots reserved from offset 4.
    pub number4: u8,
    /// Timeout of reservation 4, in minutes.
    pub timeout4: u8,
    /// Increment of reservation 4: the low 8 bits of the field.
    pub increment4: u8,
}

/// The data link management message that the bits of a type 20 message
/// hold.
pub open spec fn data_link_management(
    bits: Seq<bool>,
    station: Station,
    own_vessel: bool,
) -> DataLinkManagementMessage {
    let case = InterrogationCase::of(bits);
    let increment1 = bits_value(bits, 59, 11) as u16;
    let increment2 = bits_value(bits, 89, 11) as u16;
    let increment3 = bits_value(bits, 119, 11) as u16;
    let increment4 = bits_value(bits, 149, 11) as u16;
    let mmsi = bits_value(bits, 8, 30) as u32;
    let offset1 = bits_value(bits, 40, 12) as u16;
    let number1 = bits_value(bits, 52, 4) as u8;
    let timeout1 = bits_value(bits, 56, 3) as u8;
    let offset2 = bits_value(bits, 70, 12) as u16;
    let number2 = bits_value(bits, 82, 4) as u8;
    let timeout2 = bits_value(bits, 86, 3) as u8;
    let offset3 = bits_value(bits, 100, 12) as u16;
    let number3 = bits_value(bits, 112, 4) as u8;
    let timeout3 = bits_value(bits, 116, 3) as u8;
    let offset4 = bits_value(bits, 130, 12) as u16;
    let number4 = bits_value(bits, 142, 4) as u8;
    let timeout4 = bits_value(bits, 146, 3) as u8;
    DataLinkManagementMessage {
        own_vessel,
        station,
        case,
        mmsi,
        offset1,
        number1,
        timeout1,
        increment1: (increment1 % 256) as u8,
        offset2,
        number2,
        timeout2,
        increment2: (increment2 % 256) as u8,
        offset3,
        number3,
        timeout3,
        increment3: (increment3 % 256) as u8,
        offset4,
        number4,
        timeout4,
        increment4: (increment4 % 256) as u8,
    }
}

/// Whether `r` is what decoding a type 20 message of these bits gives.
pub open spec fn decodes(
    bits: Seq<bool>,
    station: Station,
    own_vessel: bool,
    r: Result<ParsedMessage, ParseError>,
) -> bool {
    r == Ok::<ParsedMessage, ParseError>(
        ParsedMessage::DataLinkManagementMessage(data_link_management(bits, station, own_vessel)),
    )
}

/// Decodes a data link management message.
pub fn handle(
    bv: &BitSequence,
    station: Station,
    own_vessel: bool,
) -> (r: Result<ParsedMessage, ParseError>)
    ensures
        decodes(bit_seq(bv), station, own_vessel, r),
{
    let case: InterrogationCase = InterrogationCase::new(bv);
    let increment1: u16 = pick_u16(bv, 59, 11);
    let increment2: u16 = pick_u16(bv, 89, 11);
    let increment3: u16 = pick_u16(bv, 119, 11);
    let increment4: u16 = pick_u16(bv, 149, 11);
    let mmsi: u32 = pick_u32(bv, 8, 30);
    let offset1: u16 = pick_u16(bv, 40, 12);
    let number1: u8 = pick_u8(bv, 52, 4);
    let timeout1: u8 = pick_u8(bv, 56, 3);
    let offset2: u16 = pick_u16(bv, 70, 12);
    let number2: u8 = pick_u8(bv, 82, 4);
    let timeout2: u8 = pick_u8(bv, 86, 3);
    let offset3: u16 = pick_u16(bv, 100, 12);
    let number3: u8 = pick_u8(bv, 112, 4);
    let timeout3: u8 = pick_u8(bv, 116, 3);
    let offset4: u16 = pick_u16(bv, 130, 12);
    let number4: u8 = pick_u8(bv, 142, 4);
    let timeout4: u8 = pick_u8(bv, 146, 3);
    Ok(
        ParsedMessage::DataLinkManagementMessage(
            DataLinkManagementMessage {
                own_vessel,
                station,
                case,
                mmsi,
                offset1,
                number1,
                timeout1,
                increment1: (increment1 % 256) as u8,
                offset2,
                number2,
                timeout2,
                increment2: (increment2 % 256) as u8,
                offset3,
                number3,
                timeout3,
                increment3: (increment3 % 256) as u8,
                offset4,
                number4,
                timeout4,
                increment4: (increment4 % 256) as u8,
            },
        ),
    )
}

} // verus!
