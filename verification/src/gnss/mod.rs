//! GNSS records and the enumerations that their fields hold.

pub mod alm;
pub mod dbs;
pub mod dpt;
pub mod dtm;
pub mod gga;
pub mod gll;
pub mod gns;
pub mod gsa;
pub mod gsv;
pub mod hdt;
pub mod mss;
pub mod mtw;
pub mod mwv;
pub mod rmc;
pub mod stn;
pub mod vbw;
pub mod vhw;
pub mod vtg;
pub mod zda;

pub use alm::AlmData;
pub use dbs::DbsData;
pub use dpt::DptData;
pub use dtm::DtmData;
pub use gga::{GgaData, GgaQualityIndicator};
pub use gll::GllData;
pub use gns::{GnsData, GnsModeIndicator};
pub use gsa::{GsaData, GsaFixMode};
pub use gsv::GsvData;
pub use hdt::HdtData;
pub use mss::MssData;
pub use mtw::MtwData;
pub use mwv::{MwvData, SpeedUnit};
pub use rmc::RmcData;
pub use stn::StnData;
pub use vbw::VbwData;
pub use vhw::VhwData;
pub use vtg::VtgData;
pub use zda::ZdaData;

use crate::error::{invalid, ParseError};
use crate::text::{all_ascii, ascii_len, field, field_or_empty, is_char, push_text, views};
use vstd::prelude::*;
use vstd::string::*;

verus! {

broadcast use vstd::string::group_string_axioms;

/// The navigation system, told by the talker of a GNSS sentence.
#[derive(Clone, Copy, Debug, PartialEq, Eq, Structural)]
pub enum NavigationSystem {
    /// Several satellite systems together: `GN`.
    Combination,
    /// GPS: `GP`.
    Gps,
    /// GLONASS: `GL`.
    Glonass,
    /// Galileo: `GA`.
    Galileo,
    /// BeiDou: `BD`.
    Beidou,
    /// NavIC: `GI`.
    Navic,
    /// QZSS: `QZ`.
    Qzss,
    /// A sentence of a manufacturer's own: `P`, mostly followed by a
    /// manufacturer code of three characters.
    Proprietary,
    /// Any other talker.
    Other,
}

impl NavigationSystem {
    /// The navigation system that a talker of at least two characters,
    /// or one that starts with `P`, tells.
    pub open spec fn of(talker: Seq<char>) -> NavigationSystem {
        if talker.len() >= 1 && talker[0] == 'P' {
            NavigationSystem::Proprietary
        } else if talker.len() < 2 {
            NavigationSystem::Other
        } else if talker[0] == 'G' && talker[1] == 'N' {
            NavigationSystem::Combination
        } else if talker[0] == 'G' && talker[1] == 'P' {
            NavigationSystem::Gps
        } else if talker[0] == 'G' && talker[1] == 'L' {
            NavigationSystem::Glonass
        } else if talker[0] == 'G' && talker[1] == 'A' {
            NavigationSystem::Galileo
        } else if talker[0] == 'B' && talker[1] == 'D' {
            NavigationSystem::Beidou
        } else if talker[0] == 'G' && talker[1] == 'I' {
            NavigationSystem::Navic
        } else if talker[0] == 'Q' && talker[1] == 'Z' {
            NavigationSystem::Qzss
        } else {
            NavigationSystem::Other
        }
    }

    /// Tells the navigation system by a talker. A talker that starts
    /// with `P` is proprietary; any other must have two characters, of
    /// which those not known give `Other`.
    pub fn from_talker(talker_id: &str) -> (r: Result<NavigationSystem, ParseError>)
        requires
            talker_id.is_ascii(),
        ensures
            r is Ok <==> talker_id@.len() >= 1 && (talker_id@[0] == 'P' || talker_id@.len() >= 2),
            r is Ok ==> r.unwrap() == NavigationSystem::of(talker_id@),
            r is Err ==> r.unwrap_err() is InvalidSentence && r.unwrap_err().text()
                == "Invalid talker identifier"@,
    {
        let n: usize = ascii_len(talker_id);
        if n < 1 {
            return Err(invalid("Invalid talker identifier"));
        }
        let a: char = talker_id.get_ascii(0) as char;
        if a == 'P' {
            return Ok(NavigationSystem::Proprietary);
        }
        if n < 2 {
            return Err(invalid("Invalid talker identifier"));
        }
        let b: char = talker_id.get_ascii(1) as char;
        let system = if a == 'G' && b == 'N' {
            NavigationSystem::Combination
        } else if a == 'G' && b == 'P' {
            NavigationSystem::Gps
        } else if a == 'G' && b == 'L' {
            NavigationSystem::Glonass
        } else if a == 'G' && b == 'A' {
            NavigationSystem::Galileo
        } else if a == 'B' && b == 'D' {
            NavigationSystem::Beidou
        } else if a == 'G' && b == 'I' {
            NavigationSystem::Navic
        } else if a == 'Q' && b == 'Z' {
            NavigationSystem::Qzss
        } else {
            NavigationSystem::Other
        };
        Ok(system)
    }
}

/// The FAA mode of a position or a speed.
#[derive(Clone, Copy, Debug, PartialEq, Eq, Structural)]
pub enum FaaMode {
    /// Autonomous mode.
    Autonomous,
    /// Differential mode.
    Differential,
    /// Estimated data: dead reckoning.
    Estimated,
    /// No valid data.
    NotValid,
    /// Simulated data.
    Simulator,
}

impl FaaMode {
    /// The mode that a text names: `A`, `D`, `E` or `N`.
    pub open spec fn of(val: Seq<char>) -> Option<FaaMode> {
        if val == seq!['A'] {
            Some(FaaMode::Autonomous)
        } else if val == seq!['D'] {
            Some(FaaMode::Differential)
        } else if val == seq!['E'] {
            Some(FaaMode::Estimated)
        } else if val == seq!['N'] {
            Some(FaaMode::NotValid)
        } else {
            None
        }
    }

    /// The message of the error for a text that names no mode.
    pub open spec fn error_text(val: Seq<char>) -> Seq<char> {
        "Unrecognized FAA information value: "@ + val
    }

    /// Tells the FAA mode that a text names.
    pub fn new(val: &str) -> (r: Result<FaaMode, String>)
        requires
            val.is_ascii(),
        ensures
            r.ok() == FaaMode::of(val@),
            r is Err ==> r.unwrap_err()@ == FaaMode::error_text(val@),
    {
        if is_char(val, 'A') {
            Ok(FaaMode::Autonomous)
        } else if is_char(val, 'D') {
            Ok(FaaMode::Differential)
        } else if is_char(val, 'E') {
            Ok(FaaMode::Estimated)
        } else if is_char(val, 'N') {
            Ok(FaaMode::NotValid)
        } else {
            let mut msg: String = String::from_str("Unrecognized FAA information value: ");
            push_text(&mut msg, val);
            Err(msg)
        }
    }
}

/// The FAA mode in field `num`; nothing where the field names none.
pub open spec fn faa_field(fields: Seq<Seq<char>>, num: int) -> Option<FaaMode> {
    FaaMode::of(field_or_empty(fields, num))
}

/// Reads the FAA mode in field `num`.
pub fn pick_faa_field(fields: &Vec<String>, num: usize) -> (r: Option<FaaMode>)
    requires
        all_ascii(fields@),
    ensures
        r == faa_field(views(fields@), num as int),
{
    FaaMode::new(field(fields, num)).ok()
}

impl NavigationSystem {
    /// What the variant is called in a message.
    pub open spec fn label_text(self) -> Seq<char> {
        match self {
            NavigationSystem::Combination => "combination"@,
            NavigationSystem::Gps => "GPS"@,
            NavigationSystem::Glonass => "GLONASS"@,
            NavigationSystem::Galileo => "Galileo"@,
            NavigationSystem::Beidou => "BeiDou"@,
            NavigationSystem::Navic => "Navic"@,
            NavigationSystem::Qzss => "QZSS"@,
            NavigationSystem::Proprietary => "proprietary"@,
            NavigationSystem::Other => "other"@,
        }
    }

    /// What the variant is called in a message.
    pub fn label(&self) -> (r: &'static str)
        ensures
            r@ == self.label_text(),
    {
        match self {
            NavigationSystem::Combination => "combination",
            NavigationSystem::Gps => "GPS",
            NavigationSystem::Glonass => "GLONASS",
            NavigationSystem::Galileo => "Galileo",
            NavigationSystem::Beidou => "BeiDou",
            NavigationSystem::Navic => "Navic",
            NavigationSystem::Qzss => "QZSS",
            NavigationSystem::Proprietary => "proprietary",
            NavigationSystem::Other => "other",
        }
    }
}

impl FaaMode {
    /// What the variant is called in a message.
    pub open spec fn label_text(self) -> Seq<char> {
        match self {
            FaaMode::Autonomous => "A"@,
            FaaMode::Differential => "D"@,
            FaaMode::Estimated => "E"@,
            FaaMode::NotValid => "N"@,
            FaaMode::Simulator => "?"@,
        }
    }

    /// What the variant is called in a message.
    pub fn label(&self) -> (r: &'static str)
        ensures
            r@ == self.label_text(),
    {
        match self {
            FaaMode::Autonomous => "A",
            FaaMode::Differential => "D",
            FaaMode::Estimated => "E",
            FaaMode::NotValid => "N",
            FaaMode::Simulator => "?",
        }
    }
}

} // verus!
