//! AIS records and the enumerations that their fields hold.

pub mod country;
pub mod dispatch;
pub mod vdm_t10;
pub mod vdm_t11;
pub mod vdm_t12;
pub mod vdm_t13;
pub mod vdm_t14;
pub mod vdm_t15;
pub mod vdm_t16;
pub mod vdm_t17;
pub mod vdm_t18;
pub mod vdm_t19;
pub mod vdm_t1t2t3;
pub mod vdm_t20;
pub mod vdm_t21;
pub mod vdm_t22;
pub mod vdm_t23;
pub mod vdm_t24;
pub mod vdm_t25;
pub mod vdm_t26;
pub mod vdm_t27;
pub mod vdm_t4;
pub mod vdm_t5;
pub mod vdm_t6;
pub mod vdm_t9;

pub use vdm_t10::UtcDateInquiry;
pub use vdm_t12::AddressedSafetyRelatedMessage;
pub use vdm_t13::SafetyRelatedAcknowledgement;
pub use vdm_t14::SafetyRelatedBroadcastMessage;
pub use vdm_t15::{Interrogation, InterrogationCase};
pub use vdm_t16::AssignmentModeCommand;
pub use vdm_t17::DgnssBroadcastBinaryMessage;
pub use vdm_t20::DataLinkManagementMessage;
pub use vdm_t21::{AidToNavigationReport, NavAidType};
pub use vdm_t22::ChannelManagement;
pub use vdm_t23::{GroupAssignmentCommand, StationInterval, StationType};
pub use vdm_t25::SingleSlotBinaryMessage;
pub use vdm_t26::MultipleSlotBinaryMessage;
pub use vdm_t4::BaseStationReport;
pub use vdm_t6::BinaryAddressedMessage;
pub use vdm_t9::StandardSarAircraftPositionReport;

use crate::datetime::UtcDateTime;
use crate::error::{invalid, ParseError};
use crate::text::{ascii_len, text_view};
use vstd::prelude::*;
use vstd::string::*;

verus! {

broadcast use vstd::string::group_string_axioms;

/// The kind of AIS station, told by the talker of the sentence.
#[derive(Clone, Copy, Debug, PartialEq, Eq, Structural)]
pub enum Station {
    /// `!AB`
    BaseStation,
    /// `!AD`
    DependentAisBaseStation,
    /// `!AI`, the most common one
    MobileStation,
    /// `!AN`
    AidToNavigationStation,
    /// `!AR`
    AisReceivingStation,
    /// `!AS`
    LimitedBaseStation,
    /// `!AT`
    AisTransmittingStation,
    /// `!AX`
    RepeaterStation,
    /// Any other talker
    Other,
}

impl Default for Station {
    fn default() -> (r: Station)
        ensures
            r == Station::Other,
    {
        Station::Other
    }
}

impl Station {
    /// The station that a talker of at least two characters tells.
    pub open spec fn of(talker: Seq<char>) -> Station {
        if talker.len() < 2 || talker[0] != 'A' {
            Station::Other
        } else if talker[1] == 'B' {
            Station::BaseStation
        } else if talker[1] == 'D' {
            Station::DependentAisBaseStation
        } else if talker[1] == 'I' {
            Station::MobileStation
        } else if talker[1] == 'N' {
            Station::AidToNavigationStation
        } else if talker[1] == 'R' {
            Station::AisReceivingStation
        } else if talker[1] == 'S' {
            Station::LimitedBaseStation
        } else if talker[1] == 'T' {
            Station::AisTransmittingStation
        } else if talker[1] == 'X' {
            Station::RepeaterStation
        } else {
            Station::Other
        }
    }

    /// Tells the station by a talker, which must have two characters.
    /// Those not known give `Other`.
    pub fn from_talker(talker_id: &str) -> (r: Result<Station, ParseError>)
        requires
            talker_id.is_ascii(),
        ensures
            r is Ok <==> talker_id@.len() >= 2,
            r is Ok ==> r.unwrap() == Station::of(talker_id@),
            r is Err ==> r.unwrap_err() is InvalidSentence && r.unwrap_err().text()
                == "Invalid station identifier"@,
    {
        if ascii_len(talker_id) < 2 {
            return Err(invalid("Invalid station identifier"));
        }
        let a: char = talker_id.get_ascii(0) as char;
        let b: char = talker_id.get_ascii(1) as char;
        let station = if a != 'A' {
            Station::Other
        } else if b == 'B' {
            Station::BaseStation
        } else if b == 'D' {
            Station::DependentAisBaseStation
        } else if b == 'I' {
            Station::MobileStation
        } else if b == 'N' {
            Station::AidToNavigationStation
        } else if b == 'R' {
            Station::AisReceivingStation
        } else if b == 'S' {
            Station::LimitedBaseStation
        } else if b == 'T' {
            Station::AisTransmittingStation
        } else if b == 'X' {
            Station::RepeaterStation
        } else {
            Station::Other
        };
        Ok(station)
    }
}

/// The class of the AIS equipment.
#[derive(Clone, Copy, Debug, PartialEq, Eq, Structural)]
pub enum AisClass {
    /// The class is not known.
    Unknown,
    /// Class A.
    ClassA,
    /// Class B.
    ClassB,
}

impl Default for AisClass {
    fn default() -> (r: AisClass)
        ensures
            r == AisClass::Unknown,
    {
        AisClass::Unknown
    }
}

/// The navigation status of a vessel.
#[derive(Clone, Copy, Debug, PartialEq, Eq, Structural)]
pub enum NavigationStatus {
    UnderWayUsingEngine,
    AtAnchor,
    NotUnderCommand,
    RestrictedManoeuverability,
    ConstrainedByDraught,
    Moored,
    Aground,
    EngagedInFishing,
    UnderWaySailing,
    Reserved9,
    Reserved10,
    Reserved11,
    Reserved12,
    Reserved13,
    AisSartIsActive,
    NotDefined,
}

impl Default for NavigationStatus {
    fn default() -> (r: NavigationStatus)
        ensures
            r == NavigationStatus::NotDefined,
    {
        NavigationStatus::NotDefined
    }
}

impl NavigationStatus {
    /// The variant whose number is `v`.
    pub open spec fn with_value(v: int) -> NavigationStatus {
        choose|s: NavigationStatus| s.value() == v
    }

    /// A variant is the one with its number.
    pub proof fn lemma_with_value(s: NavigationStatus)
        ensures
            NavigationStatus::with_value(s.value() as int) == s,
    {
        let c = NavigationStatus::with_value(s.value() as int);
        assert(s.value() == s.value() as int);
        assert(c.value() == s.value());
    }

    /// The number that the AIS standard gives the status.
    pub open spec fn value(self) -> u8 {
        match self {
            NavigationStatus::UnderWayUsingEngine => 0,
            NavigationStatus::AtAnchor => 1,
            NavigationStatus::NotUnderCommand => 2,
            NavigationStatus::RestrictedManoeuverability => 3,
            NavigationStatus::ConstrainedByDraught => 4,
            NavigationStatus::Moored => 5,
            NavigationStatus::Aground => 6,
            NavigationStatus::EngagedInFishing => 7,
            NavigationStatus::UnderWaySailing => 8,
            NavigationStatus::Reserved9 => 9,
            NavigationStatus::Reserved10 => 10,
            NavigationStatus::Reserved11 => 11,
            NavigationStatus::Reserved12 => 12,
            NavigationStatus::Reserved13 => 13,
            NavigationStatus::AisSartIsActive => 14,
            NavigationStatus::NotDefined => 15,
        }
    }

    /// The number that the AIS standard gives the status.
    pub fn to_value(&self) -> (v: u8)
        ensures
            v == self.value(),
    {
        match self {
            NavigationStatus::UnderWayUsingEngine => 0,
            NavigationStatus::AtAnchor => 1,
            NavigationStatus::NotUnderCommand => 2,
            NavigationStatus::RestrictedManoeuverability => 3,
            NavigationStatus::ConstrainedByDraught => 4,
            NavigationStatus::Moored => 5,
            NavigationStatus::Aground => 6,
            NavigationStatus::EngagedInFishing => 7,
            NavigationStatus::UnderWaySailing => 8,
            NavigationStatus::Reserved9 => 9,
            NavigationStatus::Reserved10 => 10,
            NavigationStatus::Reserved11 => 11,
            NavigationStatus::Reserved12 => 12,
            NavigationStatus::Reserved13 => 13,
            NavigationStatus::AisSartIsActive => 14,
            NavigationStatus::NotDefined => 15,
        }
    }

    /// The status that the number `nav_status` stands for.
    pub open spec fn of(nav_status: u8) -> NavigationStatus {
        NavigationStatus::with_value((if nav_status <= 15 {
                nav_status
            } else {
                15
            }) as int)
    }

    /// The status with the given number; `NotDefined` for a number above 15.
    pub fn new(nav_status: u8) -> (r: NavigationStatus)
        ensures
            r.value() == (if nav_status <= 15 {
                nav_status
            } else {
                15
            }),
            r == NavigationStatus::of(nav_status),
    {
        let r: NavigationStatus = match nav_status {
            0 => NavigationStatus::UnderWayUsingEngine,
            1 => NavigationStatus::AtAnchor,
            2 => NavigationStatus::NotUnderCommand,
            3 => NavigationStatus::RestrictedManoeuverability,
            4 => NavigationStatus::ConstrainedByDraught,
            5 => NavigationStatus::Moored,
            6 => NavigationStatus::Aground,
            7 => NavigationStatus::EngagedInFishing,
            8 => NavigationStatus::UnderWaySailing,
            9 => NavigationStatus::Reserved9,
            10 => NavigationStatus::Reserved10,
            11 => NavigationStatus::Reserved11,
            12 => NavigationStatus::Reserved12,
            13 => NavigationStatus::Reserved13,
            14 => NavigationStatus::AisSartIsActive,
            15 => NavigationStatus::NotDefined,
            _ => NavigationStatus::NotDefined,
        };
        proof {
            NavigationStatus::lemma_with_value(r);
        }
        r
    }
}

/// What the seconds field of a position report tells of the positioning system.
#[derive(Clone, Copy, Debug, PartialEq, Eq, Structural)]
pub enum PositioningSystemMeta {
    /// The field holds a second, 0 to 59.
    Operative,
    ManualInputMode,
    DeadReckoningMode,
    Inoperative,
}

/// The direction in which a vessel turns.
#[derive(Clone, Copy, Debug, PartialEq, Eq, Structural)]
pub enum RotDirection {
    /// Turning to port.
    Port,
    /// Not turning.
    Center,
    /// Turning to starboard.
    Starboard,
}

impl Default for RotDirection {
    fn default() -> (r: RotDirection)
        ensures
            r == RotDirection::Center,
    {
        RotDirection::Center
    }
}

/// The type of a ship, from the combined ship and cargo type field.
#[derive(Clone, Copy, Debug, PartialEq, Eq, Structural)]
pub enum ShipType {
    NotAvailable,
    Reserved1,
    WingInGround,
    Fishing,
    Towing,
    TowingLong,
    DredgingOrUnderwaterOps,
    DivingOps,
    MilitaryOps,
    Sailing,
    PleasureCraft,
    Reserved38,
    Reserved39,
    HighSpeedCraft,
    Pilot,
    SearchAndRescue,
    Tug,
    PortTender,
    AntiPollutionEquipment,
    LawEnforcement,
    SpareLocal56,
    SpareLocal57,
    MedicalTransport,
    Noncombatant,
    Passenger,
    Cargo,
    Tanker,
    Other,
}

impl Default for ShipType {
    fn default() -> (r: ShipType)
        ensures
            r == ShipType::NotAvailable,
    {
        ShipType::NotAvailable
    }
}

impl ShipType {
    /// The variant whose number is `v`.
    pub open spec fn with_value(v: int) -> ShipType {
        choose|s: ShipType| s.value() == v
    }

    /// A variant is the one with its number.
    pub proof fn lemma_with_value(s: ShipType)
        ensures
            ShipType::with_value(s.value() as int) == s,
    {
        let c = ShipType::with_value(s.value() as int);
        assert(s.value() == s.value() as int);
        assert(c.value() == s.value());
    }

    /// The lowest number of the combined field that gives this type.
    pub open spec fn value(self) -> u8 {
        match self {
            ShipType::NotAvailable => 0,
            ShipType::Reserved1 => 10,
            ShipType::WingInGround => 20,
            ShipType::Fishing => 30,
            ShipType::Towing => 31,
            ShipType::TowingLong => 32,
            ShipType::DredgingOrUnderwaterOps => 33,
            ShipType::DivingOps => 34,
            ShipType::MilitaryOps => 35,
            ShipType::Sailing => 36,
            ShipType::PleasureCraft => 37,
            ShipType::Reserved38 => 38,
            ShipType::Reserved39 => 39,
            ShipType::HighSpeedCraft => 40,
            ShipType::Pilot => 50,
            ShipType::SearchAndRescue => 51,
            ShipType::Tug => 52,
            ShipType::PortTender => 53,
            ShipType::AntiPollutionEquipment => 54,
            ShipType::LawEnforcement => 55,
            ShipType::SpareLocal56 => 56,
            ShipType::SpareLocal57 => 57,
            ShipType::MedicalTransport => 58,
            ShipType::Noncombatant => 59,
            ShipType::Passenger => 60,
            ShipType::Cargo => 70,
            ShipType::Tanker => 80,
            ShipType::Other => 90,
        }
    }

    /// The lowest number of the combined field that gives this type.
    pub fn to_value(&self) -> (v: u8)
        ensures
            v == self.value(),
    {
        match self {
            ShipType::NotAvailable => 0,
            ShipType::Reserved1 => 10,
            ShipType::WingInGround => 20,
            ShipType::Fishing => 30,
            ShipType::Towing => 31,
            ShipType::TowingLong => 32,
            ShipType::DredgingOrUnderwaterOps => 33,
            ShipType::DivingOps => 34,
            ShipType::MilitaryOps => 35,
            ShipType::Sailing => 36,
            ShipType::PleasureCraft => 37,
            ShipType::Reserved38 => 38,
            ShipType::Reserved39 => 39,
            ShipType::HighSpeedCraft => 40,
            ShipType::Pilot => 50,
            ShipType::SearchAndRescue => 51,
            ShipType::Tug => 52,
            ShipType::PortTender => 53,
            ShipType::AntiPollutionEquipment => 54,
            ShipType::LawEnforcement => 55,
            ShipType::SpareLocal56 => 56,
            ShipType::SpareLocal57 => 57,
            ShipType::MedicalTransport => 58,
            ShipType::Noncombatant => 59,
            ShipType::Passenger => 60,
            ShipType::Cargo => 70,
            ShipType::Tanker => 80,
            ShipType::Other => 90,
        }
    }

    /// The ship type that the combined field `raw` stands for.
    pub open spec fn of(raw: u8) -> ShipType {
        ShipType::with_value((if raw >= 100 {
                0
            } else if 30 <= raw < 40 || 50 <= raw < 60 {
                raw as int
            } else {
                raw / 10 * 10
            }) as int)
    }

    /// The ship type that the combined ship and cargo type field gives.
    /// The thirties and the fifties name a type each; of the other tens
    /// the first digit alone counts. Numbers from 100 give `NotAvailable`.
    pub fn new(raw: u8) -> (r: ShipType)
        ensures
            r.value() == (if raw >= 100 {
                0
            } else if 30 <= raw < 40 || 50 <= raw < 60 {
                raw as int
            } else {
                raw / 10 * 10
            }),
            r == ShipType::of(raw),
    {
        if raw >= 100 {
            proof {
                ShipType::lemma_with_value(ShipType::NotAvailable);
            }
            return ShipType::NotAvailable;
        }
        let r: ShipType = match raw {
            30 => ShipType::Fishing,
            31 => ShipType::Towing,
            32 => ShipType::TowingLong,
            33 => ShipType::DredgingOrUnderwaterOps,
            34 => ShipType::DivingOps,
            35 => ShipType::MilitaryOps,
            36 => ShipType::Sailing,
            37 => ShipType::PleasureCraft,
            38 => ShipType::Reserved38,
            39 => ShipType::Reserved39,
            50 => ShipType::Pilot,
            51 => ShipType::SearchAndRescue,
            52 => ShipType::Tug,
            53 => ShipType::PortTender,
            54 => ShipType::AntiPollutionEquipment,
            55 => ShipType::LawEnforcement,
            56 => ShipType::SpareLocal56,
            57 => ShipType::SpareLocal57,
            58 => ShipType::MedicalTransport,
            59 => ShipType::Noncombatant,
            _ => match raw / 10 {
                0 => ShipType::NotAvailable,
                1 => ShipType::Reserved1,
                2 => ShipType::WingInGround,
                4 => ShipType::HighSpeedCraft,
                6 => ShipType::Passenger,
                7 => ShipType::Cargo,
                8 => ShipType::Tanker,
                _ => ShipType::Other,
            },
        };
        proof {
            ShipType::lemma_with_value(r);
        }
        r
    }
}

/// The type of cargo, from the combined ship and cargo type field.
#[derive(Clone, Copy, Debug, PartialEq, Eq, Structural)]
pub enum CargoType {
    Undefined,
    HazardousCategoryA,
    HazardousCategoryB,
    HazardousCategoryC,
    HazardousCategoryD,
    Reserved5,
    Reserved6,
    Reserved7,
    Reserved8,
    Reserved9,
}

impl Default for CargoType {
    fn default() -> (r: CargoType)
        ensures
            r == CargoType::Undefined,
    {
        CargoType::Undefined
    }
}

impl CargoType {
    /// The variant whose number is `v`.
    pub open spec fn with_value(v: int) -> CargoType {
        choose|s: CargoType| s.value() == v
    }

    /// A variant is the one with its number.
    pub proof fn lemma_with_value(s: CargoType)
        ensures
            CargoType::with_value(s.value() as int) == s,
    {
        let c = CargoType::with_value(s.value() as int);
        assert(s.value() == s.value() as int);
        assert(c.value() == s.value());
    }

    /// Ten, and the last digit of the combined field that gives this type.
    pub open spec fn value(self) -> u8 {
        match self {
            CargoType::Undefined => 10,
            CargoType::HazardousCategoryA => 11,
            CargoType::HazardousCategoryB => 12,
            CargoType::HazardousCategoryC => 13,
            CargoType::HazardousCategoryD => 14,
            CargoType::Reserved5 => 15,
            CargoType::Reserved6 => 16,
            CargoType::Reserved7 => 17,
            CargoType::Reserved8 => 18,
            CargoType::Reserved9 => 19,
        }
    }

    /// Ten, and the last digit of the combined field that gives this type.
    pub fn to_value(&self) -> (v: u8)
        ensures
            v == self.value(),
    {
        match self {
            CargoType::Undefined => 10,
            CargoType::HazardousCategoryA => 11,
            CargoType::HazardousCategoryB => 12,
            CargoType::HazardousCategoryC => 13,
            CargoType::HazardousCategoryD => 14,
            CargoType::Reserved5 => 15,
            CargoType::Reserved6 => 16,
            CargoType::Reserved7 => 17,
            CargoType::Reserved8 => 18,
            CargoType::Reserved9 => 19,
        }
    }

    /// Whether the combined field `raw` names a cargo: it does from 10 to
    /// 99, but for the thirties and the fifties.
    pub open spec fn has_cargo(raw: u8) -> bool {
        10 <= raw < 100 && !(30 <= raw < 40) && !(50 <= raw < 60)
    }

    /// The cargo type that the combined field `raw` stands for.
    pub open spec fn of(raw: u8) -> CargoType {
        CargoType::with_value((if CargoType::has_cargo(raw) {
                10 + raw % 10
            } else {
                10
            }) as int)
    }

    /// The cargo type that the combined ship and cargo type field gives:
    /// its last digit where the field names a cargo, else `Undefined`.
    pub fn new(raw: u8) -> (r: CargoType)
        ensures
            r.value() == (if CargoType::has_cargo(raw) {
                10 + raw % 10
            } else {
                10
            }),
            r == CargoType::of(raw),
    {
        if raw < 10 || raw >= 100 || (30 <= raw && raw < 40) || (50 <= raw && raw < 60) {
            proof {
                CargoType::lemma_with_value(CargoType::Undefined);
            }
            return CargoType::Undefined;
        }
        let r: CargoType = match raw % 10 {
            0 => CargoType::Undefined,
            1 => CargoType::HazardousCategoryA,
            2 => CargoType::HazardousCategoryB,
            3 => CargoType::HazardousCategoryC,
            4 => CargoType::HazardousCategoryD,
            5 => CargoType::Reserved5,
            6 => CargoType::Reserved6,
            7 => CargoType::Reserved7,
            8 => CargoType::Reserved8,
            _ => CargoType::Reserved9,
        };
        proof {
            CargoType::lemma_with_value(r);
        }
        r
    }
}

/// The type of the electronic position fixing device.
#[derive(Clone, Copy, Debug, PartialEq, Eq, Structural)]
pub enum PositionFixType {
    Undefined,
    GPS,
    GLONASS,
    GPSGLONASS,
    LoranC,
    Chayka,
    IntegratedNavigationSystem,
    Surveyed,
    Galileo,
}

impl PositionFixType {
    /// The variant whose number is `v`.
    pub open spec fn with_value(v: int) -> PositionFixType {
        choose|s: PositionFixType| s.value() == v
    }

    /// A variant is the one with its number.
    pub proof fn lemma_with_value(s: PositionFixType)
        ensures
            PositionFixType::with_value(s.value() as int) == s,
    {
        let c = PositionFixType::with_value(s.value() as int);
        assert(s.value() == s.value() as int);
        assert(c.value() == s.value());
    }

    /// The number that the AIS standard gives the device type.
    pub open spec fn value(self) -> u8 {
        match self {
            PositionFixType::Undefined => 0,
            PositionFixType::GPS => 1,
            PositionFixType::GLONASS => 2,
            PositionFixType::GPSGLONASS => 3,
            PositionFixType::LoranC => 4,
            PositionFixType::Chayka => 5,
            PositionFixType::IntegratedNavigationSystem => 6,
            PositionFixType::Surveyed => 7,
            PositionFixType::Galileo => 8,
        }
    }

    /// The number that the AIS standard gives the device type.
    pub fn to_value(&self) -> (v: u8)
        ensures
            v == self.value(),
    {
        match self {
            PositionFixType::Undefined => 0,
            PositionFixType::GPS => 1,
            PositionFixType::GLONASS => 2,
            PositionFixType::GPSGLONASS => 3,
            PositionFixType::LoranC => 4,
            PositionFixType::Chayka => 5,
            PositionFixType::IntegratedNavigationSystem => 6,
            PositionFixType::Surveyed => 7,
            PositionFixType::Galileo => 8,
        }
    }

    /// The device type that the number `raw` stands for.
    pub open spec fn of(raw: u8) -> PositionFixType {
        PositionFixType::with_value((if raw <= 8 {
                raw
            } else {
                0
            }) as int)
    }

    /// The device type with the given number; `Undefined` for a number
    /// above 8.
    pub fn new(raw: u8) -> (r: PositionFixType)
        ensures
            r.value() == (if raw <= 8 {
                raw
            } else {
                0
            }),
            r == PositionFixType::of(raw),
    {
        let r: PositionFixType = match raw {
            0 => PositionFixType::Undefined,
            1 => PositionFixType::GPS,
            2 => PositionFixType::GLONASS,
            3 => PositionFixType::GPSGLONASS,
            4 => PositionFixType::LoranC,
            5 => PositionFixType::Chayka,
            6 => PositionFixType::IntegratedNavigationSystem,
            7 => PositionFixType::Surveyed,
            8 => PositionFixType::Galileo,
            _ => PositionFixType::Undefined,
        };
        proof {
            PositionFixType::lemma_with_value(r);
        }
        r
    }
}

/// A position report: AIS types 1, 2, 3, 18 and 27. Fractional quantities
/// are held as whole numbers of the unit that the field's name gives.
#[derive(Clone, Debug, PartialEq, Default)]
pub struct VesselDynamicData {
    /// True for a report of the own vessel, false for one of another.
    pub own_vessel: bool,
    /// The kind of AIS station.
    pub station: Station,
    /// Class A or class B.
    pub ais_type: AisClass,
    /// User id, 30 bits.
    pub mmsi: u32,
    /// Navigation status.
    pub nav_status: NavigationStatus,
    /// The rate-of-turn indicator of the sensor, -126 to 126, where the
    /// sensor gives one. The rate in degrees a minute is the square of
    /// (indicator / 4.733), with the indicator's sign.
    pub rot_indicator: Option<i8>,
    /// The direction of a turn of more than 5 degrees in 30 seconds.
    pub rot_direction: Option<RotDirection>,
    /// Speed over ground, in tenths of a knot.
    pub sog_knots10: Option<u16>,
    /// True for a position accurate to 10 m, false for less.
    pub high_position_accuracy: bool,
    /// Latitude, in 1/10000 of a minute of arc, north positive.
    pub latitude_min10000: Option<i32>,
    /// Longitude, in 1/10000 of a minute of arc, east positive.
    pub longitude_min10000: Option<i32>,
    /// Course over ground, in tenths of a degree.
    pub cog10: Option<u32>,
    /// True heading in degrees, 0 to 359.
    pub heading_true: Option<u16>,
    /// The seconds field of the UTC time stamp, 6 bits.
    pub timestamp_seconds: u8,
    /// What the seconds field tells of the positioning system.
    pub positioning_system_meta: Option<PositioningSystemMeta>,
    /// Type 27: true for a current GNSS position.
    pub current_gnss_position: Option<bool>,
    /// True where the vessel is engaged in a special manoeuvre.
    pub special_manoeuvre: Option<bool>,
    /// True where receiver autonomous integrity monitoring is in use.
    pub raim_flag: bool,
    /// Class B: false for a SOTDMA unit, true for a "CS" unit.
    pub class_b_unit_flag: Option<bool>,
    /// Class B: whether the unit has a display for messages 12 and 14.
    pub class_b_display: Option<bool>,
    /// Class B: whether the unit has a DSC function.
    pub class_b_dsc: Option<bool>,
    /// Class B: whether the unit works over the whole marine band.
    pub class_b_band_flag: Option<bool>,
    /// Class B: whether the unit takes frequencies from message 22.
    pub class_b_msg22_flag: Option<bool>,
    /// Class B: false for autonomous mode, true for assigned mode.
    pub class_b_mode_flag: Option<bool>,
    /// Class B: which communication state follows.
    pub class_b_css_flag: Option<bool>,
    /// The communication state of the radio.
    pub radio_status: Option<u32>,
}

/// Static and voyage data of a vessel: AIS types 5 and 24.
#[derive(Clone, Debug, PartialEq, Default)]
pub struct VesselStaticData {
    /// True for data of the own vessel, false for those of another.
    pub own_vessel: bool,
    /// Class A or class B.
    pub ais_type: AisClass,
    /// User id, 30 bits.
    pub mmsi: u32,
    /// AIS version indicator, 2 bits.
    pub ais_version_indicator: u8,
    /// IMO number, 30 bits.
    pub imo_number: Option<u32>,
    /// Call sign, 7 characters.
    pub call_sign: Option<String>,
    /// Name, 20 characters.
    pub name: Option<String>,
    /// Type of ship.
    pub ship_type: ShipType,
    /// Type of cargo.
    pub cargo_type: CargoType,
    /// Class B: vendor id.
    pub equipment_vendor_id: Option<String>,
    /// Class B: unit model code.
    pub equipment_model: Option<u8>,
    /// Class B: serial number.
    pub equipment_serial_number: Option<u32>,
    /// Distance from the reference point to the bow, 9 bits.
    pub dimension_to_bow: Option<u16>,
    /// Distance from the reference point to the stern, 9 bits.
    pub dimension_to_stern: Option<u16>,
    /// Distance from the reference point to port, 6 bits.
    pub dimension_to_port: Option<u16>,
    /// Distance from the reference point to starboard, 6 bits.
    pub dimension_to_starboard: Option<u16>,
    /// Type of the electronic position fixing device.
    pub position_fix_type: Option<PositionFixType>,
    /// Estimated time of arrival.
    pub eta: Option<UtcDateTime>,
    /// Greatest present static draught, in decimetres.
    pub draught10: Option<u8>,
    /// Destination, 20 characters.
    pub destination: Option<String>,
    /// Class B: MMSI of the mothership.
    pub mothership_mmsi: Option<u32>,
}

/// `VesselStaticData` with each text as the sequence of its characters.
pub struct VesselStaticDataView {
    pub own_vessel: bool,
    pub ais_type: AisClass,
    pub mmsi: u32,
    pub ais_version_indicator: u8,
    pub imo_number: Option<u32>,
    pub call_sign: Option<Seq<char>>,
    pub name: Option<Seq<char>>,
    pub ship_type: ShipType,
    pub cargo_type: CargoType,
    pub equipment_vendor_id: Option<Seq<char>>,
    pub equipment_model: Option<u8>,
    pub equipment_serial_number: Option<u32>,
    pub dimension_to_bow: Option<u16>,
    pub dimension_to_stern: Option<u16>,
    pub dimension_to_port: Option<u16>,
    pub dimension_to_starboard: Option<u16>,
    pub position_fix_type: Option<PositionFixType>,
    pub eta: Option<UtcDateTime>,
    pub draught10: Option<u8>,
    pub destination: Option<Seq<char>>,
    pub mothership_mmsi: Option<u32>,
}

impl View for VesselStaticData {
    type V = VesselStaticDataView;

    open spec fn view(&self) -> VesselStaticDataView {
        VesselStaticDataView {
            own_vessel: self.own_vessel,
            ais_type: self.ais_type,
            mmsi: self.mmsi,
            ais_version_indicator: self.ais_version_indicator,
            imo_number: self.imo_number,
            call_sign: text_view(self.call_sign),
            name: text_view(self.name),
            ship_type: self.ship_type,
            cargo_type: self.cargo_type,
            equipment_vendor_id: text_view(self.equipment_vendor_id),
            equipment_model: self.equipment_model,
            equipment_serial_number: self.equipment_serial_number,
            dimension_to_bow: self.dimension_to_bow,
            dimension_to_stern: self.dimension_to_stern,
            dimension_to_port: self.dimension_to_port,
            dimension_to_starboard: self.dimension_to_starboard,
            position_fix_type: self.position_fix_type,
            eta: self.eta,
            draught10: self.draught10,
            destination: text_view(self.destination),
            mothership_mmsi: self.mothership_mmsi,
        }
    }
}

impl Station {
    /// What the variant is called in a message.
    pub open spec fn label_text(self) -> Seq<char> {
        match self {
            Station::BaseStation => "base station"@,
            Station::DependentAisBaseStation => "dependent AIS base station"@,
            Station::MobileStation => "mobile station"@,
            Station::AidToNavigationStation => "aid to navigation station"@,
            Station::AisReceivingStation => "ais receiving station"@,
            Station::LimitedBaseStation => "limited base station"@,
            Station::AisTransmittingStation => "AIS transmitting station"@,
            Station::RepeaterStation => "repeater station"@,
            Station::Other => "other"@,
        }
    }

    /// What the variant is called in a message.
    pub fn label(&self) -> (r: &'static str)
        ensures
            r@ == self.label_text(),
    {
        match self {
            Station::BaseStation => "base station",
            Station::DependentAisBaseStation => "dependent AIS base station",
            Station::MobileStation => "mobile station",
            Station::AidToNavigationStation => "aid to navigation station",
            Station::AisReceivingStation => "ais receiving station",
            Station::LimitedBaseStation => "limited base station",
            Station::AisTransmittingStation => "AIS transmitting station",
            Station::RepeaterStation => "repeater station",
            Station::Other => "other",
        }
    }
}

impl AisClass {
    /// What the variant is called in a message.
    pub open spec fn label_text(self) -> Seq<char> {
        match self {
            AisClass::Unknown => "unknown"@,
            AisClass::ClassA => "Class A"@,
            AisClass::ClassB => "Class B"@,
        }
    }

    /// What the variant is called in a message.
    pub fn label(&self) -> (r: &'static str)
        ensures
            r@ == self.label_text(),
    {
        match self {
            AisClass::Unknown => "unknown",
            AisClass::ClassA => "Class A",
            AisClass::ClassB => "Class B",
        }
    }
}

impl NavigationStatus {
    /// What the variant is called in a message.
    pub open spec fn label_text(self) -> Seq<char> {
        match self {
            NavigationStatus::UnderWayUsingEngine => "under way using engine"@,
            NavigationStatus::AtAnchor => "at anchor"@,
            NavigationStatus::NotUnderCommand => "not under command"@,
            NavigationStatus::RestrictedManoeuverability => "restricted manoeuverability"@,
            NavigationStatus::ConstrainedByDraught => "constrained by draught"@,
            NavigationStatus::Moored => "moored"@,
            NavigationStatus::Aground => "aground"@,
            NavigationStatus::EngagedInFishing => "engaged in fishing"@,
            NavigationStatus::UnderWaySailing => "under way sailing"@,
            NavigationStatus::Reserved9 => "(reserved9)"@,
            NavigationStatus::Reserved10 => "(reserved10)"@,
            NavigationStatus::Reserved11 => "(reserved11)"@,
            NavigationStatus::Reserved12 => "(reserved12)"@,
            NavigationStatus::Reserved13 => "(reserved13)"@,
            NavigationStatus::AisSartIsActive => "ais sart is active"@,
            NavigationStatus::NotDefined => "(notDefined)"@,
        }
    }

    /// What the variant is called in a message.
    pub fn label(&self) -> (r: &'static str)
        ensures
            r@ == self.label_text(),
    {
        match self {
            NavigationStatus::UnderWayUsingEngine => "under way using engine",
            NavigationStatus::AtAnchor => "at anchor",
            NavigationStatus::NotUnderCommand => "not under command",
            NavigationStatus::RestrictedManoeuverability => "restricted manoeuverability",
            NavigationStatus::ConstrainedByDraught => "constrained by draught",
            NavigationStatus::Moored => "moored",
            NavigationStatus::Aground => "aground",
            NavigationStatus::EngagedInFishing => "engaged in fishing",
            NavigationStatus::UnderWaySailing => "under way sailing",
            NavigationStatus::Reserved9 => "(reserved9)",
            NavigationStatus::Reserved10 => "(reserved10)",
            NavigationStatus::Reserved11 => "(reserved11)",
            NavigationStatus::Reserved12 => "(reserved12)",
            NavigationStatus::Reserved13 => "(reserved13)",
            NavigationStatus::AisSartIsActive => "ais sart is active",
            NavigationStatus::NotDefined => "(notDefined)",
        }
    }
}

impl PositioningSystemMeta {
    /// What the variant is called in a message.
    pub open spec fn label_text(self) -> Seq<char> {
        match self {
            PositioningSystemMeta::Operative => "operative"@,
            PositioningSystemMeta::ManualInputMode => "manual input mode"@,
            PositioningSystemMeta::DeadReckoningMode => "dead reckoning mode"@,
            PositioningSystemMeta::Inoperative => "inoperative"@,
        }
    }

    /// What the variant is called in a message.
    pub fn label(&self) -> (r: &'static str)
        ensures
            r@ == self.label_text(),
    {
        match self {
            PositioningSystemMeta::Operative => "operative",
            PositioningSystemMeta::ManualInputMode => "manual input mode",
            PositioningSystemMeta::DeadReckoningMode => "dead reckoning mode",
            PositioningSystemMeta::Inoperative => "inoperative",
        }
    }
}

impl RotDirection {
    /// What the variant is called in a message.
    pub open spec fn label_text(self) -> Seq<char> {
        match self {
            RotDirection::Port => "port"@,
            RotDirection::Center => "center"@,
            RotDirection::Starboard => "starboard"@,
        }
    }

    /// What the variant is called in a message.
    pub fn label(&self) -> (r: &'static str)
        ensures
            r@ == self.label_text(),
    {
        match self {
            RotDirection::Port => "port",
            RotDirection::Center => "center",
            RotDirection::Starboard => "starboard",
        }
    }
}

impl ShipType {
    /// What the variant is called in a message.
    pub open spec fn label_text(self) -> Seq<char> {
        match self {
            ShipType::NotAvailable => "(not available)"@,
            ShipType::Reserved1 => "(reserved)"@,
            ShipType::WingInGround => "wing in ground"@,
            ShipType::Fishing => "fishing"@,
            ShipType::Towing => "towing"@,
            ShipType::TowingLong => "towing, long"@,
            ShipType::DredgingOrUnderwaterOps => "dredging or underwater ops"@,
            ShipType::DivingOps => "diving ops"@,
            ShipType::MilitaryOps => "military ops"@,
            ShipType::Sailing => "sailing"@,
            ShipType::PleasureCraft => "pleasure craft"@,
            ShipType::Reserved38 => "(reserved)"@,
            ShipType::Reserved39 => "(reserved)"@,
            ShipType::HighSpeedCraft => "high-speed craft"@,
            ShipType::Pilot => "pilot"@,
            ShipType::SearchAndRescue => "search and rescue"@,
            ShipType::Tug => "tug"@,
            ShipType::PortTender => "port tender"@,
            ShipType::AntiPollutionEquipment => "anti-pollution equipment"@,
            ShipType::LawEnforcement => "law enforcement"@,
            ShipType::SpareLocal56 => "(local)"@,
            ShipType::SpareLocal57 => "(local)"@,
            ShipType::MedicalTransport => "medical transport"@,
            ShipType::Noncombatant => "noncombatant"@,
            ShipType::Passenger => "passenger"@,
            ShipType::Cargo => "cargo"@,
            ShipType::Tanker => "tanker"@,
            ShipType::Other => "other"@,
        }
    }

    /// What the variant is called in a message.
    pub fn label(&self) -> (r: &'static str)
        ensures
            r@ == self.label_text(),
    {
        match self {
            ShipType::NotAvailable => "(not available)",
            ShipType::Reserved1 => "(reserved)",
            ShipType::WingInGround => "wing in ground",
            ShipType::Fishing => "fishing",
            ShipType::Towing => "towing",
            ShipType::TowingLong => "towing, long",
            ShipType::DredgingOrUnderwaterOps => "dredging or underwater ops",
            ShipType::DivingOps => "diving ops",
            ShipType::MilitaryOps => "military ops",
            ShipType::Sailing => "sailing",
            ShipType::PleasureCraft => "pleasure craft",
            ShipType::Reserved38 => "(reserved)",
            ShipType::Reserved39 => "(reserved)",
            ShipType::HighSpeedCraft => "high-speed craft",
            ShipType::Pilot => "pilot",
            ShipType::SearchAndRescue => "search and rescue",
            ShipType::Tug => "tug",
            ShipType::PortTender => "port tender",
            ShipType::AntiPollutionEquipment => "anti-pollution equipment",
            ShipType::LawEnforcement => "law enforcement",
            ShipType::SpareLocal56 => "(local)",
            ShipType::SpareLocal57 => "(local)",
            ShipType::MedicalTransport => "medical transport",
            ShipType::Noncombatant => "noncombatant",
            ShipType::Passenger => "passenger",
            ShipType::Cargo => "cargo",
            ShipType::Tanker => "tanker",
            ShipType::Other => "other",
        }
    }
}

impl CargoType {
    /// What the variant is called in a message.
    pub open spec fn label_text(self) -> Seq<char> {
        match self {
            CargoType::Undefined => "undefined"@,
            CargoType::HazardousCategoryA => "hazardous category A"@,
            CargoType::HazardousCategoryB => "hazardous category B"@,
            CargoType::HazardousCategoryC => "hazardous category C"@,
            CargoType::HazardousCategoryD => "hazardous category D"@,
            CargoType::Reserved5 => "(reserved)"@,
            CargoType::Reserved6 => "(reserved)"@,
            CargoType::Reserved7 => "(reserved)"@,
            CargoType::Reserved8 => "(reserved)"@,
            CargoType::Reserved9 => "(reserved)"@,
        }
    }

    /// What the variant is called in a message.
    pub fn label(&self) -> (r: &'static str)
        ensures
            r@ == self.label_text(),
    {
        match self {
            CargoType::Undefined => "undefined",
            CargoType::HazardousCategoryA => "hazardous category A",
            CargoType::HazardousCategoryB => "hazardous category B",
            CargoType::HazardousCategoryC => "hazardous category C",
            CargoType::HazardousCategoryD => "hazardous category D",
            CargoType::Reserved5 => "(reserved)",
            CargoType::Reserved6 => "(reserved)",
            CargoType::Reserved7 => "(reserved)",
            CargoType::Reserved8 => "(reserved)",
            CargoType::Reserved9 => "(reserved)",
        }
    }
}

impl PositionFixType {
    /// What the variant is called in a message.
    pub open spec fn label_text(self) -> Seq<char> {
        match self {
            PositionFixType::Undefined => "undefined"@,
            PositionFixType::GPS => "GPS"@,
            PositionFixType::GLONASS => "GLONASS"@,
            PositionFixType::GPSGLONASS => "GPS/GLONASS"@,
            PositionFixType::LoranC => "Loran-C"@,
            PositionFixType::Chayka => "Chayka"@,
            PositionFixType::IntegratedNavigationSystem => "integrated navigation system"@,
            PositionFixType::Surveyed => "surveyed"@,
            PositionFixType::Galileo => "Galileo"@,
        }
    }

    /// What the variant is called in a message.
    pub fn label(&self) -> (r: &'static str)
        ensures
            r@ == self.label_text(),
    {
        match self {
            PositionFixType::Undefined => "undefined",
            PositionFixType::GPS => "GPS",
            PositionFixType::GLONASS => "GLONASS",
            PositionFixType::GPSGLONASS => "GPS/GLONASS",
            PositionFixType::LoranC => "Loran-C",
            PositionFixType::Chayka => "Chayka",
            PositionFixType::IntegratedNavigationSystem => "integrated navigation system",
            PositionFixType::Surveyed => "surveyed",
            PositionFixType::Galileo => "Galileo",
        }
    }
}

} // verus!
