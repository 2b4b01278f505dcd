//! ZDA: time and date.

use crate::ParsedMessage;
use crate::datetime::{utc_error_text, UtcDateTime, UtcOffset};
use crate::error::ParseError;
use crate::gnss::NavigationSystem;
use crate::text::{all_ascii, field, field_or_empty, signed_i32, unsigned_up_to, views};
use crate::times::{
    date_fields_error_text, date_fields_valid, date_of_fields, hhmmss_ss_of, parse_hhmmss_ss,
    pick_date_with_fields, pick_timezone_with_fields, zone_of_fields,
};
use vstd::prelude::*;

verus! {

/// Time and date: ZDA.
#[derive(Clone, Debug, PartialEq)]
pub struct ZdaData {
    /// The navigation system that the talker tells.
    pub source: NavigationSystem,
    /// UTC date and time.
    pub timestamp_utc: Option<UtcDateTime>,
    /// The offset of the local time zone from UTC.
    pub timezone_local: Option<UtcOffset>,
}

/// The date of a ZDA sentence, at midnight: year, month and day are the
/// fields 4, 3 and 2.
pub open spec fn date(fields: Seq<Seq<char>>) -> Option<UtcDateTime> {
    date_of_fields(fields, 4, 3, 2, 0, 0, 0, 0)
}

/// The message of the error for a ZDA sentence whose date cannot be
/// read or does not exist.
pub open spec fn date_error_text(fields: Seq<Seq<char>>) -> Seq<char> {
    if !date_fields_valid(fields, 4, 3, 2) {
        date_fields_error_text(fields, 4, 3, 2)
    } else {
        utc_error_text(
            signed_i32(field_or_empty(fields, 4)).unwrap(),
            unsigned_up_to(field_or_empty(fields, 3), 0xffff_ffff).unwrap(),
            unsigned_up_to(field_or_empty(fields, 2), 0xffff_ffff).unwrap(),
            0,
            0,
            0,
        )
    }
}

/// The record that the fields of a ZDA sentence hold, where its date
/// exists. The time is field 1; the time zone the fields 5 and 6.
pub open spec fn record(fields: Seq<Seq<char>>, nav_system: NavigationSystem) -> ZdaData {
    ZdaData {
        source: nav_system,
        timestamp_utc: hhmmss_ss_of(field_or_empty(fields, 1), date(fields).unwrap()),
        timezone_local: zone_of_fields(fields, 5, 6),
    }
}

/// Whether `r` is what decoding a ZDA sentence gives.
pub open spec fn decodes(
    fields: Seq<Seq<char>>,
    nav_system: NavigationSystem,
    r: Result<ParsedMessage, ParseError>,
) -> bool {
    if date(fields) is None {
        &&& r is Err
        &&& r.unwrap_err() is InvalidSentence
        &&& r.unwrap_err().text() == date_error_text(fields)
    } else {
        r == Ok::<ParsedMessage, ParseError>(ParsedMessage::Zda(record(fields, nav_system)))
    }
}

/// Decodes a ZDA sentence from its fields. A date that cannot be read is
/// an error; a time or a time zone that cannot be read is left out.
pub fn handle(
    fields: &Vec<String>,
    nav_system: NavigationSystem,
) -> (r: Result<ParsedMessage, ParseError>)
    requires
        all_ascii(fields@),
    ensures
        decodes(views(fields@), nav_system, r),
{
    let day = match pick_date_with_fields(fields, 4, 3, 2, 0, 0, 0, 0) {
        Ok(d) => d,
        Err(e) => {
            return Err(e);
        },
    };
    Ok(
        ParsedMessage::Zda(
            ZdaData {
                source: nav_system,
                timestamp_utc: parse_hhmmss_ss(field(fields, 1), day).ok(),
                timezone_local: pick_timezone_with_fields(fields, 5, 6).ok(),
            },
        ),
    )
}

} // verus!
