//! AIS type 24: static data report of a class B station, which comes in
//! two parts. The part that arrives first is kept until the other comes,
//! and the two are merged into one record. Where both give a field, the
//! value of the part that came first is taken.

use crate::{NmeaParser, ParsedMessage};
use crate::ais::{AisClass, CargoType, ShipType, Station, VesselStaticData, VesselStaticDataView};
use crate::bitseq::{bit_seq, BitSequence};
use crate::error::ParseError;
use crate::text::{decimal_chars, push_decimal, push_text, text_view};
use crate::util::{
    bits_text, bits_value, non_empty, pick_string, pick_text, pick_u16, pick_u32, pick_u8,
};
use vstd::prelude::*;
use vstd::string::*;

verus! {

/// The part of the static data that the bits of a type 24 message hold:
/// part A where the part number is 0, else part B. Part A gives the
/// name; part B the call sign, the types of ship and cargo, the
/// equipment, the dimensions and the mothership.
pub open spec fn static_data_part(bits: Seq<bool>, own_vessel: bool) -> VesselStaticDataView {
    let part_a = bits_value(bits, 38, 2) == 0;
    let part_b = !part_a;
    let ship_and_cargo = bits_value(bits, 40, 8) as u8;
    VesselStaticDataView {
        own_vessel,
        ais_type: AisClass::ClassB,
        mmsi: bits_value(bits, 8, 30) as u32,
        ais_version_indicator: 0,
        imo_number: None,
        call_sign: if part_b {
            non_empty(bits_text(bits, 90, 7))
        } else {
            None
        },
        name: if part_a {
            non_empty(bits_text(bits, 40, 120))
        } else {
            None
        },
        ship_type: if part_b {
            ShipType::of(ship_and_cargo)
        } else {
            ShipType::NotAvailable
        },
        cargo_type: if part_b {
            CargoType::of(ship_and_cargo)
        } else {
            CargoType::Undefined
        },
        equipment_vendor_id: if part_b {
            Some(bits_text(bits, 48, 3))
        } else {
            None
        },
        equipment_model: if part_b {
            Some(bits_value(bits, 66, 4) as u8)
        } else {
            None
        },
        equipment_serial_number: if part_b {
            Some(bits_value(bits, 70, 20) as u32)
        } else {
            None
        },
        dimension_to_bow: if part_b {
            Some(bits_value(bits, 132, 9) as u16)
        } else {
            None
        },
        dimension_to_stern: if part_b {
            Some(bits_value(bits, 141, 9) as u16)
        } else {
            None
        },
        dimension_to_port: if part_b {
            Some(bits_value(bits, 150, 6) as u16)
        } else {
            None
        },
        dimension_to_starboard: if part_b {
            Some(bits_value(bits, 156, 6) as u16)
        } else {
            None
        },
        position_fix_type: None,
        eta: None,
        draught10: None,
        destination: None,
        mothership_mmsi: if part_b {
            Some(bits_value(bits, 132, 30) as u32)
        } else {
            None
        },
    }
}

/// The first of two optional values that is present.
pub open spec fn first_some<T>(a: Option<T>, b: Option<T>) -> Option<T> {
    if a is Some {
        a
    } else {
        b
    }
}

/// Whether two parts cannot be merged: they differ in class, MMSI, IMO
/// number or AIS version.
pub open spec fn merge_conflict(a: VesselStaticDataView, b: VesselStaticDataView) -> bool {
    ||| a.ais_type != b.ais_type
    ||| a.mmsi != b.mmsi
    ||| a.imo_number != b.imo_number
    ||| a.ais_version_indicator != b.ais_version_indicator
}

/// The record that two parts merge into. Of each field it has the value
/// that is given; where both parts give one, that of `a`.
pub open spec fn merged(a: VesselStaticDataView, b: VesselStaticDataView) -> VesselStaticDataView {
    VesselStaticDataView {
        own_vessel: a.own_vessel,
        ais_type: a.ais_type,
        mmsi: a.mmsi,
        ais_version_indicator: a.ais_version_indicator,
        imo_number: first_some(a.imo_number, b.imo_number),
        call_sign: first_some(a.call_sign, b.call_sign),
        name: first_some(a.name, b.name),
        ship_type: if a.ship_type != ShipType::NotAvailable {
            a.ship_type
        } else {
            b.ship_type
        },
        cargo_type: if a.cargo_type != CargoType::Undefined {
            a.cargo_type
        } else {
            b.cargo_type
        },
        equipment_vendor_id: first_some(a.equipment_vendor_id, b.equipment_vendor_id),
        equipment_model: first_some(a.equipment_model, b.equipment_model),
        equipment_serial_number: first_some(a.equipment_serial_number, b.equipment_serial_number),
        dimension_to_bow: first_some(a.dimension_to_bow, b.dimension_to_bow),
        dimension_to_stern: first_some(a.dimension_to_stern, b.dimension_to_stern),
        dimension_to_port: first_some(a.dimension_to_port, b.dimension_to_port),
        dimension_to_starboard: first_some(a.dimension_to_starboard, b.dimension_to_starboard),
        position_fix_type: first_some(a.position_fix_type, b.position_fix_type),
        eta: first_some(a.eta, b.eta),
        draught10: first_some(a.draught10, b.draught10),
        destination: first_some(a.destination, b.destination),
        mothership_mmsi: first_some(a.mothership_mmsi, b.mothership_mmsi),
    }
}

/// The message of the error for two parts that cannot be merged.
pub open spec fn merge_error_text(a: VesselStaticDataView, b: VesselStaticDataView) -> Seq<char> {
    if a.ais_type != b.ais_type {
        "Mismatching AIS types: "@ + a.ais_type.label_text() + " != "@ + b.ais_type.label_text()
    } else if a.mmsi != b.mmsi || a.imo_number != b.imo_number {
        "Mismatching MMSI numbers: "@ + decimal_chars(a.mmsi as nat) + " != "@ + decimal_chars(
            b.mmsi as nat,
        )
    } else {
        "Mismatching AIS version indicators: "@ + decimal_chars(a.ais_version_indicator as nat)
            + " != "@ + decimal_chars(b.ais_version_indicator as nat)
    }
}

/// Whether two optional numbers are the same.
fn same_option(a: Option<u32>, b: Option<u32>) -> (r: bool)
    ensures
        r == (a == b),
{
    match (a, b) {
        (Some(x), Some(y)) => x == y,
        (None, None) => true,
        _ => false,
    }
}

impl VesselStaticData {
    /// Merges the two parts of a static data report into one record.
    /// Fails where they differ in class, MMSI, IMO number or AIS version.
    /// Where both give a field, the value of `self` is taken.
    pub fn merge(&self, other: &VesselStaticData) -> (r: Result<VesselStaticData, String>)
        ensures
            r is Ok <==> !merge_conflict(self@, other@),
            r is Ok ==> r.unwrap()@ == merged(self@, other@),
            r is Err ==> r.unwrap_err()@ == merge_error_text(self@, other@),
    {
        if self.ais_type != other.ais_type {
            let mut msg: String = String::from_str("Mismatching AIS types: ");
            push_text(&mut msg, self.ais_type.label());
            push_text(&mut msg, " != ");
            push_text(&mut msg, other.ais_type.label());
            Err(msg)
        } else if self.mmsi != other.mmsi || !same_option(self.imo_number, other.imo_number) {
            let mut msg: String = String::from_str("Mismatching MMSI numbers: ");
            push_decimal(&mut msg, self.mmsi as u64);
            push_text(&mut msg, " != ");
            push_decimal(&mut msg, other.mmsi as u64);
            Err(msg)
        } else if self.ais_version_indicator != other.ais_version_indicator {
            let mut msg: String = String::from_str("Mismatching AIS version indicators: ");
            push_decimal(&mut msg, self.ais_version_indicator as u64);
            push_text(&mut msg, " != ");
            push_decimal(&mut msg, other.ais_version_indicator as u64);
            Err(msg)
        } else {
            Ok(
                VesselStaticData {
                    own_vessel: self.own_vessel,
                    ais_type: self.ais_type,
                    mmsi: self.mmsi,
                    ais_version_indicator: self.ais_version_indicator,
                    imo_number: choose_some(self.imo_number, other.imo_number),
                    call_sign: choose_some_string(&self.call_sign, &other.call_sign),
                    name: choose_some_string(&self.name, &other.name),
                    ship_type: if self.ship_type != ShipType::NotAvailable {
                        self.ship_type
                    } else {
                        other.ship_type
                    },
                    cargo_type: if self.cargo_type != CargoType::Undefined {
                        self.cargo_type
                    } else {
                        other.cargo_type
                    },
                    equipment_vendor_id: choose_some_string(
                        &self.equipment_vendor_id,
                        &other.equipment_vendor_id,
                    ),
                    equipment_model: choose_some(self.equipment_model, other.equipment_model),
                    equipment_serial_number: choose_some(
                        self.equipment_serial_number,
                        other.equipment_serial_number,
                    ),
                    dimension_to_bow: choose_some(self.dimension_to_bow, other.dimension_to_bow),
                    dimension_to_stern: choose_some(
                        self.dimension_to_stern,
                        other.dimension_to_stern,
                    ),
                    dimension_to_port: choose_some(self.dimension_to_port, other.dimension_to_port),
                    dimension_to_starboard: choose_some(
                        self.dimension_to_starboard,
                        other.dimension_to_starboard,
                    ),
                    position_fix_type: choose_some(self.position_fix_type, other.position_fix_type),
                    eta: choose_some(self.eta, other.eta),
                    draught10: choose_some(self.draught10, other.draught10),
                    destination: choose_some_string(&self.destination, &other.destination),
                    mothership_mmsi: choose_some(self.mothership_mmsi, other.mothership_mmsi),
                },
            )
        }
    }
}

/// The first of two optional values that is present.
pub fn choose_some<T>(a: Option<T>, b: Option<T>) -> (r: Option<T>)
    ensures
        r == first_some(a, b),
{
    if a.is_some() {
        a
    } else {
        b
    }
}

/// The first of two optional texts that is present.
pub fn choose_some_string(a: &Option<String>, b: &Option<String>) -> (r: Option<String>)
    ensures
        text_view(r) == first_some(text_view(*a), text_view(*b)),
{
    match a {
        Some(s) => Some(s.clone()),
        None => match b {
            Some(s) => Some(s.clone()),
            None => None,
        },
    }
}

/// The message of the error for a part number that is neither 0 nor 1.
pub open spec fn part_number_error(bits: Seq<bool>) -> Seq<char> {
    "AIVDM type 24 part number has unexpected value: "@ + decimal_chars(bits_value(bits, 38, 2))
}

/// What decoding a type 24 message does, given the parts kept `before`:
/// a part number above 1 is an error. Else, where a part is kept under
/// the MMSI, it is taken out and merged with the new part, the kept one
/// first; where none is kept, the new part is kept and the result is
/// `Incomplete`.
pub open spec fn static_data_step(
    bits: Seq<bool>,
    own_vessel: bool,
    before: Map<u32, VesselStaticDataView>,
    r: Result<ParsedMessage, ParseError>,
    after: Map<u32, VesselStaticDataView>,
) -> bool {
    let part = static_data_part(bits, own_vessel);
    if bits_value(bits, 38, 2) > 1 {
        &&& after == before
        &&& r is Err
        &&& r.unwrap_err() is InvalidSentence
        &&& r.unwrap_err().text() == part_number_error(bits)
    } else if before.contains_key(part.mmsi) {
        let kept = before[part.mmsi];
        &&& after == before.remove(part.mmsi)
        &&& if merge_conflict(kept, part) {
            &&& r is Err
            &&& r.unwrap_err() is InvalidSentence
            &&& r.unwrap_err().text() == merge_error_text(kept, part)
        } else {
            match r {
                Ok(ParsedMessage::VesselStaticData(m)) => m@ == merged(kept, part),
                _ => false,
            }
        }
    } else {
        &&& after == before.insert(part.mmsi, part)
        &&& r is Ok
        &&& r.unwrap() is Incomplete
    }
}

/// Decodes one part of a static data report. The first part seen of a
/// vessel is kept in the parser; the second is merged with it.
pub fn handle(
    bv: &BitSequence,
    station: Station,
    store: &mut NmeaParser,
    own_vessel: bool,
) -> (r: Result<ParsedMessage, ParseError>)
    requires
        old(store).wf(),
    ensures
        final(store).wf(),
        final(store).fragments() == old(store).fragments(),
        static_data_step(
            bit_seq(bv),
            own_vessel,
            old(store).static_data(),
            r,
            final(store).static_data(),
        ),
{
    let number: u8 = pick_u8(bv, 38, 2);
    if number > 1 {
        let mut msg: String = String::from_str("AIVDM type 24 part number has unexpected value: ");
        push_decimal(&mut msg, number as u64);
        return Err(ParseError::InvalidSentence(msg));
    }
    let part_a: bool = number == 0;
    let part_b: bool = !part_a;
    let ship_and_cargo: u8 = pick_u8(bv, 40, 8);
    let vsd = VesselStaticData {
        own_vessel,
        ais_type: AisClass::ClassB,
        mmsi: pick_u32(bv, 8, 30),
        ais_version_indicator: 0,
        imo_number: None,
        call_sign: if part_b {
            pick_text(bv, 90, 7)
        } else {
            None
        },
        name: if part_a {
            pick_text(bv, 40, 120)
        } else {
            None
        },
        ship_type: if part_b {
            ShipType::new(ship_and_cargo)
        } else {
            ShipType::NotAvailable
        },
        cargo_type: if part_b {
            CargoType::new(ship_and_cargo)
        } else {
            CargoType::Undefined
        },
        equipment_vendor_id: if part_b {
            Some(pick_string(bv, 48, 3))
        } else {
            None
        },
        equipment_model: if part_b {
            Some(pick_u8(bv, 66, 4))
        } else {
            None
        },
        equipment_serial_number: if part_b {
            Some(pick_u32(bv, 70, 20))
        } else {
            None
        },
        dimension_to_bow: if part_b {
            Some(pick_u16(bv, 132, 9))
        } else {
            None
        },
        dimension_to_stern: if part_b {
            Some(pick_u16(bv, 141, 9))
        } else {
            None
        },
        dimension_to_port: if part_b {
            Some(pick_u16(bv, 150, 6))
        } else {
            None
        },
        dimension_to_starboard: if part_b {
            Some(pick_u16(bv, 156, 6))
        } else {
            None
        },
        position_fix_type: None,
        eta: None,
        draught10: None,
        destination: None,
        mothership_mmsi: if part_b {
            Some(pick_u32(bv, 132, 30))
        } else {
            None
        },
    };
    let ghost part = static_data_part(bit_seq(bv), own_vessel);
    let ghost before = store.static_data();
    assert(vsd@ == part);
    match store.pull_vsd(vsd.mmsi) {
        Some(kept) => match kept.merge(&vsd) {
            Ok(whole) => Ok(ParsedMessage::VesselStaticData(whole)),
            Err(msg) => Err(ParseError::InvalidSentence(msg)),
        },
        None => {
            store.push_vsd(vsd.mmsi, vsd);
            assert(before.remove(part.mmsi).insert(part.mmsi, part) =~= before.insert(
                part.mmsi,
                part,
            ));
            Ok(ParsedMessage::Incomplete)
        },
    }
}

/// Two views with the same fields are the same view.
proof fn lemma_view_equal(a: VesselStaticDataView, b: VesselStaticDataView)
    requires
        a.own_vessel == b.own_vessel,
        a.ais_type == b.ais_type,
        a.mmsi == b.mmsi,
        a.ais_version_indicator == b.ais_version_indicator,
        a.imo_number == b.imo_number,
        a.call_sign == b.call_sign,
        a.name == b.name,
        a.ship_type == b.ship_type,
        a.cargo_type == b.cargo_type,
        a.equipment_vendor_id == b.equipment_vendor_id,
        a.equipment_model == b.equipment_model,
        a.equipment_serial_number == b.equipment_serial_number,
        a.dimension_to_bow == b.dimension_to_bow,
        a.dimension_to_stern == b.dimension_to_stern,
        a.dimension_to_port == b.dimension_to_port,
        a.dimension_to_starboard == b.dimension_to_starboard,
        a.position_fix_type == b.position_fix_type,
        a.eta == b.eta,
        a.draught10 == b.draught10,
        a.destination == b.destination,
        a.mothership_mmsi == b.mothership_mmsi,
    ensures
        a == b,
{
}

/// Part A and part B of one vessel merge into the same record whichever
/// of the two is taken first, and they always can be merged.
pub proof fn lemma_merge_order(bits_a: Seq<bool>, bits_b: Seq<bool>, own_vessel: bool)
    requires
        bits_value(bits_a, 38, 2) == 0,
        bits_value(bits_b, 38, 2) == 1,
        bits_value(bits_a, 8, 30) == bits_value(bits_b, 8, 30),
    ensures
        !merge_conflict(
            static_data_part(bits_a, own_vessel),
            static_data_part(bits_b, own_vessel),
        ),
        !merge_conflict(
            static_data_part(bits_b, own_vessel),
            static_data_part(bits_a, own_vessel),
        ),
        merged(static_data_part(bits_a, own_vessel), static_data_part(bits_b, own_vessel))
            == merged(static_data_part(bits_b, own_vessel), static_data_part(bits_a, own_vessel)),
{
    let a = static_data_part(bits_a, own_vessel);
    let b = static_data_part(bits_b, own_vessel);
    lemma_view_equal(merged(a, b), merged(b, a));
}

/// Two parts with different MMSI cannot be merged.
pub proof fn lemma_merge_mmsi_mismatch(a: VesselStaticDataView, b: VesselStaticDataView)
    requires
        a.mmsi != b.mmsi,
    ensures
        merge_conflict(a, b),
{
}

/// Sending part B and then part A of a vessel gives what sending part A
/// and then part B gives: the first part is kept and answered with
/// `Incomplete`, the second gives the merged record, which is the same
/// either way, and the store is left as it was. This holds from a store
/// that keeps no part of that vessel.
pub proof fn lemma_static_data_order(
    bits_a: Seq<bool>,
    bits_b: Seq<bool>,
    own_vessel: bool,
    start: Map<u32, VesselStaticDataView>,
    first_ab: Result<ParsedMessage, ParseError>,
    mid_ab: Map<u32, VesselStaticDataView>,
    second_ab: Result<ParsedMessage, ParseError>,
    end_ab: Map<u32, VesselStaticDataView>,
    first_ba: Result<ParsedMessage, ParseError>,
    mid_ba: Map<u32, VesselStaticDataView>,
    second_ba: Result<ParsedMessage, ParseError>,
    end_ba: Map<u32, VesselStaticDataView>,
)
    requires
        bits_value(bits_a, 38, 2) == 0,
        bits_value(bits_b, 38, 2) == 1,
        bits_value(bits_a, 8, 30) == bits_value(bits_b, 8, 30),
        !start.contains_key(bits_value(bits_a, 8, 30) as u32),
        static_data_step(bits_a, own_vessel, start, first_ab, mid_ab),
        static_data_step(bits_b, own_vessel, mid_ab, second_ab, end_ab),
        static_data_step(bits_b, own_vessel, start, first_ba, mid_ba),
        static_data_step(bits_a, own_vessel, mid_ba, second_ba, end_ba),
    ensures
        first_ab is Ok && first_ab.unwrap() is Incomplete,
        first_ba is Ok && first_ba.unwrap() is Incomplete,
        end_ab == start,
        end_ba == start,
        match (second_ab, second_ba) {
            (
                Ok(ParsedMessage::VesselStaticData(m1)),
                Ok(ParsedMessage::VesselStaticData(m2)),
            ) => m1@ == m2@,
            _ => false,
        },
{
    let a = static_data_part(bits_a, own_vessel);
    let b = static_data_part(bits_b, own_vessel);
    lemma_merge_order(bits_a, bits_b, own_vessel);
    assert(mid_ab == start.insert(a.mmsi, a));
    assert(mid_ba == start.insert(b.mmsi, b));
    assert(end_ab =~= start);
    assert(end_ba =~= start);
}

} // verus!
