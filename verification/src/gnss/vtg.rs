//! VTG: track made good and speed over ground.

use crate::ParsedMessage;
use crate::decimal::Decimal;
use crate::error::ParseError;
use crate::fields::{lenient_decimal_field, pick_lenient_decimal_field};
use crate::gnss::{faa_field, pick_faa_field, FaaMode, NavigationSystem};
use crate::text::{all_ascii, views};
use vstd::prelude::*;

verus! {

/// Track made good and speed over ground: VTG.
#[derive(Clone, Debug, PartialEq)]
pub struct VtgData {
    /// The navigation system that the talker tells.
    pub source: NavigationSystem,
    /// Course over ground, degrees true.
    pub cog_true: Option<Decimal>,
    /// Course over ground, degrees magnetic.
    pub cog_magnetic: Option<Decimal>,
    /// Speed over ground in knots.
    pub sog_knots: Option<Decimal>,
    /// Speed over ground in kilometres an hour.
    pub sog_kph: Option<Decimal>,
    /// FAA mode.
    pub faa_mode: Option<FaaMode>,
}

/// The record that the fields of a VTG sentence hold.
pub open spec fn record(fields: Seq<Seq<char>>, nav_system: NavigationSystem) -> VtgData {
    VtgData {
        source: nav_system,
        cog_true: lenient_decimal_field(fields, 1),
        cog_magnetic: lenient_decimal_field(fields, 3),
        sog_knots: lenient_decimal_field(fields, 5),
        sog_kph: lenient_decimal_field(fields, 7),
        faa_mode: faa_field(fields, 9),
    }
}

/// Whether `r` is what decoding a VTG sentence gives.
pub open spec fn decodes(
    fields: Seq<Seq<char>>,
    nav_system: NavigationSystem,
    r: Result<ParsedMessage, ParseError>,
) -> bool {
    r == Ok::<ParsedMessage, ParseError>(ParsedMessage::Vtg(record(fields, nav_system)))
}

/// Decodes a VTG sentence from its fields. A number that cannot be read is
/// left out.
pub fn handle(
    fields: &Vec<String>,
    nav_system: NavigationSystem,
) -> (r: Result<ParsedMessage, ParseError>)
    requires
        all_ascii(fields@),
    ensures
        decodes(views(fields@), nav_system, r),
{
    let cog_true = pick_lenient_decimal_field(fields, 1);
    let cog_magnetic = pick_lenient_decimal_field(fields, 3);
    let sog_knots = pick_lenient_decimal_field(fields, 5);
    let sog_kph = pick_lenient_decimal_field(fields, 7);
    let faa_mode = pick_faa_field(fields, 9);
    Ok(
        ParsedMessage::Vtg(
            VtgData {
                source: nav_system,
                cog_true,
                cog_magnetic,
                sog_knots,
                sog_kph,
                faa_mode,
            },
        ),
    )
}

} // verus!
