//! The table of AIS message types: which decoder reads the bits of a
//! message.

use crate::{NmeaParser, ParsedMessage};
use crate::ais;
use crate::ais::{Station, VesselStaticDataView};
use crate::ais::vdm_t24::static_data_step;
use crate::bitseq::{bit_seq, BitSequence};
use crate::error::ParseError;
use crate::text::{decimal_chars, push_decimal, push_text};
use crate::util::{bits_value, pick_u8};
use vstd::prelude::*;
use vstd::string::*;

verus! {

/// The message of the error for an AIS message type that is not decoded.
pub open spec fn unsupported_message_text(
    sentence_type: Seq<char>,
    message_type: nat,
) -> Seq<char> {
    "Unsupported "@ + sentence_type + " message type: "@ + decimal_chars(message_type)
}

/// Whether `r` is what decoding the bits of an AIS message of a type
/// other than 24 gives. The type is the number in the first six bits.
pub open spec fn ais_decodes(
    bits: Seq<bool>,
    station: Station,
    own_vessel: bool,
    sentence_type: Seq<char>,
    r: Result<ParsedMessage, ParseError>,
) -> bool {
    let t = bits_value(bits, 0, 6);
    if 1 <= t <= 3 {
        ais::vdm_t1t2t3::decodes(bits, station, own_vessel, r)
    } else if t == 4 {
        ais::vdm_t4::decodes(bits, station, own_vessel, r)
    } else if t == 5 {
        ais::vdm_t5::decodes(bits, station, own_vessel, r)
    } else if t == 6 {
        ais::vdm_t6::decodes(bits, station, own_vessel, r)
    } else if t == 9 {
        ais::vdm_t9::decodes(bits, station, own_vessel, r)
    } else if t == 10 {
        ais::vdm_t10::decodes(bits, station, own_vessel, r)
    } else if t == 11 {
        ais::vdm_t11::decodes(bits, station, own_vessel, r)
    } else if t == 12 {
        ais::vdm_t12::decodes(bits, station, own_vessel, r)
    } else if t == 13 {
        ais::vdm_t13::decodes(bits, station, own_vessel, r)
    } else if t == 14 {
        ais::vdm_t14::decodes(bits, station, own_vessel, r)
    } else if t == 15 {
        ais::vdm_t15::decodes(bits, station, own_vessel, r)
    } else if t == 16 {
        ais::vdm_t16::decodes(bits, station, own_vessel, r)
    } else if t == 17 {
        ais::vdm_t17::decodes(bits, station, own_vessel, r)
    } else if t == 18 {
        ais::vdm_t18::decodes(bits, station, own_vessel, r)
    } else if t == 19 {
        ais::vdm_t19::decodes(bits, station, own_vessel, r)
    } else if t == 20 {
        ais::vdm_t20::decodes(bits, station, own_vessel, r)
    } else if t == 21 {
        ais::vdm_t21::decodes(bits, station, own_vessel, r)
    } else if t == 22 {
        ais::vdm_t22::decodes(bits, station, own_vessel, r)
    } else if t == 23 {
        ais::vdm_t23::decodes(bits, station, own_vessel, r)
    } else if t == 25 {
        ais::vdm_t25::decodes(bits, station, own_vessel, r)
    } else if t == 26 {
        ais::vdm_t26::decodes(bits, station, own_vessel, r)
    } else if t == 27 {
        ais::vdm_t27::decodes(bits, station, own_vessel, r)
    } else {
        &&& r is Err
        &&& r.unwrap_err() is UnsupportedSentenceType
        &&& r.unwrap_err().text() == unsupported_message_text(sentence_type, t)
    }
}

/// What decoding the bits of an AIS message does, given the static data
/// parts kept `before`. A type 24 message goes through the static data
/// store; any other leaves it alone.
pub open spec fn ais_step(
    bits: Seq<bool>,
    station: Station,
    own_vessel: bool,
    sentence_type: Seq<char>,
    before: Map<u32, VesselStaticDataView>,
    r: Result<ParsedMessage, ParseError>,
    after: Map<u32, VesselStaticDataView>,
) -> bool {
    if bits_value(bits, 0, 6) == 24 {
        static_data_step(bits, own_vessel, before, r, after)
    } else {
        after == before && ais_decodes(bits, station, own_vessel, sentence_type, r)
    }
}

impl NmeaParser {
    /// Decodes the bits of an AIS message by its type, the number in its
    /// first six bits.
    pub fn decode_ais(
        &mut self,
        bv: &BitSequence,
        station: Station,
        own_vessel: bool,
        sentence_type: &str,
    ) -> (r: Result<ParsedMessage, ParseError>)
        requires
            old(self).wf(),
        ensures
            final(self).wf(),
            final(self).fragments() == old(self).fragments(),
            ais_step(
                bit_seq(bv),
                station,
                own_vessel,
                sentence_type@,
                old(self).static_data(),
                r,
                final(self).static_data(),
            ),
    {
        let message_type: u8 = pick_u8(bv, 0, 6);
        match message_type {
            1 | 2 | 3 => ais::vdm_t1t2t3::handle(bv, station, own_vessel),
            4 => ais::vdm_t4::handle(bv, station, own_vessel),
            5 => ais::vdm_t5::handle(bv, station, own_vessel),
            6 => ais::vdm_t6::handle(bv, station, own_vessel),
            9 => ais::vdm_t9::handle(bv, station, own_vessel),
            10 => ais::vdm_t10::handle(bv, station, own_vessel),
            11 => ais::vdm_t11::handle(bv, station, own_vessel),
            12 => ais::vdm_t12::handle(bv, station, own_vessel),
            13 => ais::vdm_t13::handle(bv, station, own_vessel),
            14 => ais::vdm_t14::handle(bv, station, own_vessel),
            15 => ais::vdm_t15::handle(bv, station, own_vessel),
            16 => ais::vdm_t16::handle(bv, station, own_vessel),
            17 => ais::vdm_t17::handle(bv, station, own_vessel),
            18 => ais::vdm_t18::handle(bv, station, own_vessel),
            19 => ais::vdm_t19::handle(bv, station, own_vessel),
            20 => ais::vdm_t20::handle(bv, station, own_vessel),
            21 => ais::vdm_t21::handle(bv, station, own_vessel),
            22 => ais::vdm_t22::handle(bv, station, own_vessel),
            23 => ais::vdm_t23::handle(bv, station, own_vessel),
            24 => ais::vdm_t24::handle(bv, station, self, own_vessel),
            25 => ais::vdm_t25::handle(bv, station, own_vessel),
            26 => ais::vdm_t26::handle(bv, station, own_vessel),
            27 => ais::vdm_t27::handle(bv, station, own_vessel),
            _ => {
                let mut msg: String = String::from_str("Unsupported ");
                push_text(&mut msg, sentence_type);
                push_text(&mut msg, " message type: ");
                push_decimal(&mut msg, message_type as u64);
                Err(ParseError::UnsupportedSentenceType(msg))
            },
        }
    }
}

} // verus!
