//! AIS type 5: static and voyage related data of a ship.

use crate::ParsedMessage;
use crate::ais::{
    AisClass, CargoType, PositionFixType, ShipType, Station, VesselStaticData, VesselStaticDataView,
};
use crate::bitseq::{bit_seq, BitSequence};
use crate::datetime::UtcDateTime;
use crate::error::ParseError;
use crate::util::{
    bits_text, bits_value, eta_epoch, eta_of, non_empty, pick_eta, pick_text, pick_u16, pick_u32,
    pick_u8,
};
use vstd::prelude::*;

verus! {

/// The static and voyage data that the bits of a type 5 message hold.
pub open spec fn static_voyage_data(bits: Seq<bool>, own_vessel: bool) -> VesselStaticDataView {
    let imo = bits_value(bits, 40, 30) as u32;
    let ship_and_cargo = bits_value(bits, 232, 8) as u8;
    let fix = bits_value(bits, 270, 4) as u8;
    VesselStaticDataView {
        own_vessel,
        ais_type: AisClass::ClassB,
        mmsi: bits_value(bits, 8, 30) as u32,
        ais_version_indicator: bits_value(bits, 38, 2) as u8,
        imo_number: if imo == 0 {
            None
        } else {
            Some(imo)
        },
        call_sign: non_empty(bits_text(bits, 70, 7)),
        name: non_empty(bits_text(bits, 112, 20)),
        ship_type: ShipType::of(ship_and_cargo),
        cargo_type: CargoType::of(ship_and_cargo),
        equipment_vendor_id: None,
        equipment_model: None,
        equipment_serial_number: None,
        dimension_to_bow: Some(bits_value(bits, 240, 9) as u16),
        dimension_to_stern: Some(bits_value(bits, 249, 9) as u16),
        dimension_to_port: Some(bits_value(bits, 258, 6) as u16),
        dimension_to_starboard: Some(bits_value(bits, 264, 6) as u16),
        position_fix_type: if fix == 0 {
            None
        } else {
            Some(PositionFixType::of(fix))
        },
        eta: eta_of(bits, 274, eta_epoch()),
        draught10: Some(bits_value(bits, 294, 8) as u8),
        destination: non_empty(bits_text(bits, 302, 20)),
        mothership_mmsi: None,
    }
}

/// Whether `r` is what decoding a type 5 message of these bits gives.
pub open spec fn decodes(
    bits: Seq<bool>,
    station: Station,
    own_vessel: bool,
    r: Result<ParsedMessage, ParseError>,
) -> bool {
    match r {
        Ok(ParsedMessage::VesselStaticData(m)) => m@ == static_voyage_data(bits, own_vessel),
        _ => false,
    }
}

/// Decodes the static and voyage data of a ship. A time of arrival that
/// names a day which does not exist is left out.
pub fn handle(
    bv: &BitSequence,
    station: Station,
    own_vessel: bool,
) -> (r: Result<ParsedMessage, ParseError>)
    ensures
        decodes(bit_seq(bv), station, own_vessel, r),
{
    let imo: u32 = pick_u32(bv, 40, 30);
    let ship_and_cargo: u8 = pick_u8(bv, 232, 8);
    let fix: u8 = pick_u8(bv, 270, 4);
    let eta: Option<UtcDateTime> = match pick_eta(bv, 274) {
        Ok(eta) => eta,
        Err(_) => None,
    };
    Ok(
        ParsedMessage::VesselStaticData(
            VesselStaticData {
                own_vessel,
                ais_type: AisClass::ClassB,
                mmsi: pick_u32(bv, 8, 30),
                ais_version_indicator: pick_u8(bv, 38, 2),
                imo_number: if imo == 0 {
                    None
                } else {
                    Some(imo)
                },
                call_sign: pick_text(bv, 70, 7),
                name: pick_text(bv, 112, 20),
                ship_type: ShipType::new(ship_and_cargo),
                cargo_type: CargoType::new(ship_and_cargo),
                equipment_vendor_id: None,
                equipment_model: None,
                equipment_serial_number: None,
                dimension_to_bow: Some(pick_u16(bv, 240, 9)),
                dimension_to_stern: Some(pick_u16(bv, 249, 9)),
                dimension_to_port: Some(pick_u16(bv, 258, 6)),
                dimension_to_starboard: Some(pick_u16(bv, 264, 6)),
                position_fix_type: if fix == 0 {
                    None
                } else {
                    Some(PositionFixType::new(fix))
                },
                eta,
                draught10: Some(pick_u8(bv, 294, 8)),
                destination: pick_text(bv, 302, 20),
                mothership_mmsi: None,
            },
        ),
    )
}

} // verus!
