//! GNS: GNSS fix data.

use crate::ParsedMessage;
use crate::datetime::UtcDateTime;
use crate::decimal::Decimal;
use crate::error::ParseError;
use crate::fields::{
    decimal_field, decimal_field_valid, field_error_text, number_field_valid, pick_decimal_field,
    pick_u16_field, pick_u8_field, u16_field, u8_field,
};
use crate::gnss::NavigationSystem;
use crate::position::{
    latitude_error_text, latitude_field, latitude_field_valid, longitude_error_text,
    longitude_field, longitude_field_valid, pick_latitude_field, pick_longitude_field, Coordinate,
};
use crate::text::{all_ascii, ascii_len, field, field_or_empty, views};
use crate::times::{pick_time_field, time_field};
use vstd::prelude::*;
use vstd::string::*;

verus! {

broadcast use vstd::string::group_string_axioms;

/// GNSS fix data: GNS.
#[derive(Clone, Debug, PartialEq)]
pub struct GnsData {
    /// The navigation system that the talker tells.
    pub source: NavigationSystem,
    /// UTC time of the fix, on the first day of the year 2000.
    pub timestamp: Option<UtcDateTime>,
    /// Latitude.
    pub latitude: Option<Coordinate>,
    /// Longitude.
    pub longitude: Option<Coordinate>,
    /// Mode of the GPS fix.
    pub gps_mode: GnsModeIndicator,
    /// Mode of the GLONASS fix.
    pub glonass_mode: GnsModeIndicator,
    /// Modes of the fixes of other systems.
    pub other_modes: Vec<GnsModeIndicator>,
    /// Number of satellites in use.
    pub satellite_count: Option<u8>,
    /// Horizontal dilution of precision.
    pub hdop: Option<Decimal>,
    /// Altitude above mean sea level, in metres.
    pub altitude: Option<Decimal>,
    /// Height of the geoid above the WGS84 ellipsoid, in metres.
    pub geoid_separation: Option<Decimal>,
    /// Age of the differential data, in seconds.
    pub age_of_dgps: Option<Decimal>,
    /// Id of the differential reference station.
    pub ref_station_id: Option<u16>,
}

/// The mode of a GNS fix.
#[derive(Clone, Copy, Debug, PartialEq, Eq, Structural)]
pub enum GnsModeIndicator {
    Invalid,
    Autonomous,
    Differential,
    Precise,
    RealTimeKinematic,
    RealTimeKinematicFloat,
    DeadReckoning,
    ManualInputMode,
    SimulationMode,
}

impl GnsModeIndicator {
    /// The letter that the GNS sentence writes the mode as.
    pub open spec fn letter(self) -> char {
        match self {
            GnsModeIndicator::Invalid => 'N',
            GnsModeIndicator::Autonomous => 'A',
            GnsModeIndicator::Differential => 'D',
            GnsModeIndicator::Precise => 'P',
            GnsModeIndicator::RealTimeKinematic => 'R',
            GnsModeIndicator::RealTimeKinematicFloat => 'F',
            GnsModeIndicator::DeadReckoning => 'E',
            GnsModeIndicator::ManualInputMode => 'M',
            GnsModeIndicator::SimulationMode => 'S',
        }
    }

    /// The mode whose letter is `c`.
    pub open spec fn with_letter(c: char) -> GnsModeIndicator {
        choose|s: GnsModeIndicator| s.letter() == c
    }

    /// A mode is the one with its letter.
    pub proof fn lemma_with_letter(s: GnsModeIndicator)
        ensures
            GnsModeIndicator::with_letter(s.letter()) == s,
    {
        let c = GnsModeIndicator::with_letter(s.letter());
        assert(s.letter() == s.letter());
        assert(c.letter() == s.letter());
    }

    /// Whether `a` is the letter of a mode.
    pub open spec fn known(a: char) -> bool {
        a == 'N' || a == 'A' || a == 'D' || a == 'P' || a == 'R' || a == 'F' || a == 'E' || a == 'M'
            || a == 'S'
    }

    /// The mode that the character `a` stands for; `Invalid` for one that
    /// is no letter of a mode.
    pub open spec fn of(a: char) -> GnsModeIndicator {
        if GnsModeIndicator::known(a) {
            GnsModeIndicator::with_letter(a)
        } else {
            GnsModeIndicator::Invalid
        }
    }

    /// The mode with the given letter; `Invalid` for any other
    /// character.
    pub fn new(a: char) -> (r: GnsModeIndicator)
        ensures
            r == GnsModeIndicator::of(a),
    {
        let r: GnsModeIndicator = match a {
            'N' => GnsModeIndicator::Invalid,
            'A' => GnsModeIndicator::Autonomous,
            'D' => GnsModeIndicator::Differential,
            'P' => GnsModeIndicator::Precise,
            'R' => GnsModeIndicator::RealTimeKinematic,
            'F' => GnsModeIndicator::RealTimeKinematicFloat,
            'E' => GnsModeIndicator::DeadReckoning,
            'M' => GnsModeIndicator::ManualInputMode,
            'S' => GnsModeIndicator::SimulationMode,
            _ => GnsModeIndicator::Invalid,
        };
        proof {
            GnsModeIndicator::lemma_with_letter(r);
        }
        r
    }
}

/// The mode that character `i` of the mode field stands for; that of a
/// space where the field has no such character.
pub open spec fn mode_at(s: Seq<char>, i: int) -> GnsModeIndicator {
    GnsModeIndicator::of(
        if 0 <= i < s.len() {
            s[i]
        } else {
            ' '
        },
    )
}

/// The modes that the characters of the mode field from the third on
/// stand for.
pub open spec fn other_modes(s: Seq<char>) -> Seq<GnsModeIndicator> {
    Seq::new(
        if s.len() > 2 {
            (s.len() - 2) as nat
        } else {
            0
        },
        |i: int| GnsModeIndicator::of(s[i + 2]),
    )
}

/// The message of the error that decoding a GNS sentence ends in, if it
/// ends in one: that of the first field that cannot be read.
pub open spec fn failure(fields: Seq<Seq<char>>) -> Option<Seq<char>> {
    if !latitude_field_valid(fields, 2) {
        Some(latitude_error_text(field_or_empty(fields, 2)))
    } else if !longitude_field_valid(fields, 4) {
        Some(longitude_error_text(field_or_empty(fields, 4)))
    } else if !number_field_valid(fields, 7, 255) {
        Some(field_error_text(7, field_or_empty(fields, 7)))
    } else if !decimal_field_valid(fields, 8) {
        Some(field_error_text(8, field_or_empty(fields, 8)))
    } else if !decimal_field_valid(fields, 9) {
        Some(field_error_text(9, field_or_empty(fields, 9)))
    } else if !decimal_field_valid(fields, 10) {
        Some(field_error_text(10, field_or_empty(fields, 10)))
    } else if !decimal_field_valid(fields, 11) {
        Some(field_error_text(11, field_or_empty(fields, 11)))
    } else if !number_field_valid(fields, 12, 65535) {
        Some(field_error_text(12, field_or_empty(fields, 12)))
    } else {
        None
    }
}

/// Whether `m` is the record that the fields of a GNS sentence hold.
pub open spec fn is_record(
    fields: Seq<Seq<char>>,
    nav_system: NavigationSystem,
    m: GnsData,
) -> bool {
    &&& m.source == nav_system
    &&& m.timestamp == time_field(fields, 1)
    &&& m.latitude == latitude_field(fields, 2)
    &&& m.longitude == longitude_field(fields, 4)
    &&& m.gps_mode == mode_at(field_or_empty(fields, 6), 0)
    &&& m.glonass_mode == mode_at(field_or_empty(fields, 6), 1)
    &&& m.other_modes@ == other_modes(field_or_empty(fields, 6))
    &&& m.satellite_count == u8_field(fields, 7)
    &&& m.hdop == decimal_field(fields, 8)
    &&& m.altitude == decimal_field(fields, 9)
    &&& m.geoid_separation == decimal_field(fields, 10)
    &&& m.age_of_dgps == decimal_field(fields, 11)
    &&& m.ref_station_id == u16_field(fields, 12)
}

/// Whether `r` is what decoding a GNS sentence gives.
pub open spec fn decodes(
    fields: Seq<Seq<char>>,
    nav_system: NavigationSystem,
    r: Result<ParsedMessage, ParseError>,
) -> bool {
    match failure(fields) {
        Some(text) => {
            &&& r is Err
            &&& r.unwrap_err() is InvalidSentence
            &&& r.unwrap_err().text() == text
        },
        None => match r {
            Ok(ParsedMessage::Gns(m)) => is_record(fields, nav_system, m),
            _ => false,
        },
    }
}

/// Reads the modes of the mode field from its third character on.
fn pick_other_modes(s: &str) -> (r: Vec<GnsModeIndicator>)
    requires
        s.is_ascii(),
    ensures
        r@ == other_modes(s@),
{
    let n: usize = ascii_len(s);
    let mut r: Vec<GnsModeIndicator> = Vec::new();
    let mut i: usize = 2;
    while i < n
        invariant
            s.is_ascii(),
            n == s@.len(),
            2 <= i,
            i <= n || n < 2,
            r@.len() == (if n > 2 {
                i - 2
            } else {
                0
            }),
            forall|j: int| 0 <= j < r@.len() ==> r@[j] == GnsModeIndicator::of(s@[j + 2]),
        decreases n - i,
    {
        r.push(GnsModeIndicator::new(s.get_ascii(i) as char));
        i += 1;
    }
    assert(r@ =~= other_modes(s@));
    r
}

/// Decodes a GNS sentence from its fields.
pub fn handle(
    fields: &Vec<String>,
    nav_system: NavigationSystem,
) -> (r: Result<ParsedMessage, ParseError>)
    requires
        all_ascii(fields@),
    ensures
        decodes(views(fields@), nav_system, r),
{
    let timestamp = pick_time_field(fields, 1);
    let latitude = match pick_latitude_field(fields, 2) {
        Ok(v) => v,
        Err(e) => {
            return Err(e);
        },
    };
    let longitude = match pick_longitude_field(fields, 4) {
        Ok(v) => v,
        Err(e) => {
            return Err(e);
        },
    };
    let modes: &str = field(fields, 6);
    let n: usize = ascii_len(modes);
    let gps_mode = GnsModeIndicator::new(
        if n > 0 {
            modes.get_ascii(0) as char
        } else {
            ' '
        },
    );
    let glonass_mode = GnsModeIndicator::new(
        if n > 1 {
            modes.get_ascii(1) as char
        } else {
            ' '
        },
    );
    let other_modes = pick_other_modes(modes);
    let satellite_count = match pick_u8_field(fields, 7) {
        Ok(v) => v,
        Err(e) => {
            return Err(e);
        },
    };
    let hdop = match pick_decimal_field(fields, 8) {
        Ok(v) => v,
        Err(e) => {
            return Err(e);
        },
    };
    let altitude = match pick_decimal_field(fields, 9) {
        Ok(v) => v,
        Err(e) => {
            return Err(e);
        },
    };
    let geoid_separation = match pick_decimal_field(fields, 10) {
        Ok(v) => v,
        Err(e) => {
            return Err(e);
        },
    };
    let age_of_dgps = match pick_decimal_field(fields, 11) {
        Ok(v) => v,
        Err(e) => {
            return Err(e);
        },
    };
    let ref_station_id = match pick_u16_field(fields, 12) {
        Ok(v) => v,
        Err(e) => {
            return Err(e);
        },
    };
    Ok(
        ParsedMessage::Gns(
            GnsData {
                source: nav_system,
                timestamp,
                latitude,
                longitude,
                gps_mode,
                glonass_mode,
                other_modes,
                satellite_count,
                hdop,
                altitude,
                geoid_separation,
                age_of_dgps,
                ref_station_id,
            },
        ),
    )
}

impl GnsModeIndicator {
    /// What the variant is called in a message.
    pub open spec fn label_text(self) -> Seq<char> {
        match self {
            GnsModeIndicator::Invalid => "invalid"@,
            GnsModeIndicator::Autonomous => "autonomous fix"@,
            GnsModeIndicator::Differential => "differential fix"@,
            GnsModeIndicator::Precise => "precise fix"@,
            GnsModeIndicator::RealTimeKinematic => "Real-Time Kinematic"@,
            GnsModeIndicator::RealTimeKinematicFloat => "Real-Time Kinematic (floating point)"@,
            GnsModeIndicator::DeadReckoning => "dead reckoning"@,
            GnsModeIndicator::ManualInputMode => "manual input mode"@,
            GnsModeIndicator::SimulationMode => "simulation mode"@,
        }
    }

    /// What the variant is called in a message.
    pub fn label(&self) -> (r: &'static str)
        ensures
            r@ == self.label_text(),
    {
        match self {
            GnsModeIndicator::Invalid => "invalid",
            GnsModeIndicator::Autonomous => "autonomous fix",
            GnsModeIndicator::Differential => "differential fix",
            GnsModeIndicator::Precise => "precise fix",
            GnsModeIndicator::RealTimeKinematic => "Real-Time Kinematic",
            GnsModeIndicator::RealTimeKinematicFloat => "Real-Time Kinematic (floating point)",
            GnsModeIndicator::DeadReckoning => "dead reckoning",
            GnsModeIndicator::ManualInputMode => "manual input mode",
            GnsModeIndicator::SimulationMode => "simulation mode",
        }
    }
}

} // verus!
