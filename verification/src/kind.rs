//! The sentence kinds that are decoded, told by the sentence type.

use crate::text::ascii_len;
use vstd::prelude::*;
use vstd::string::*;

verus! {

broadcast use vstd::string::group_string_axioms;

/// The kind of a sentence.
#[derive(Clone, Copy, Debug, PartialEq, Eq, Structural)]
pub enum SentenceKind {
    /// `$GGA`: fix data.
    Gga,
    /// `$RMC`: recommended minimum data.
    Rmc,
    /// `$GNS`: GNSS fix data.
    Gns,
    /// `$GSA`: dilution of precision and active satellites.
    Gsa,
    /// `$GSV`: satellites in view.
    Gsv,
    /// `$VTG`: track made good and ground speed.
    Vtg,
    /// `$GLL`: geographic position.
    Gll,
    /// `$ALM`: almanac data.
    Alm,
    /// `$DTM`: datum reference.
    Dtm,
    /// `$MSS`: beacon receiver signal.
    Mss,
    /// `$STN`: multiple data id.
    Stn,
    /// `$VBW`: dual ground and water speed.
    Vbw,
    /// `$ZDA`: time and date.
    Zda,
    /// `!VDM`: AIS message received from another vessel.
    Vdm,
    /// `!VDO`: AIS message of the own vessel.
    Vdo,
    /// `$DPT`: depth of water.
    Dpt,
    /// `$DBS`: depth below surface.
    Dbs,
    /// `$MTW`: water temperature.
    Mtw,
    /// `$VHW`: water speed and heading.
    Vhw,
    /// `$HDT`: true heading.
    Hdt,
    /// `$MWV`: wind speed and angle.
    Mwv,
    /// Any other sentence type.
    Unknown,
}

/// Whether a sentence type is the marker `m` followed by `a`, `b`, `c`.
pub open spec fn is_code(t: Seq<char>, m: char, a: char, b: char, c: char) -> bool {
    t.len() == 4 && t[0] == m && t[1] == a && t[2] == b && t[3] == c
}

/// The kind that a sentence type names.
pub open spec fn kind_of(t: Seq<char>) -> SentenceKind {
    if is_code(t, '$', 'G', 'G', 'A') {
        SentenceKind::Gga
    } else if is_code(t, '$', 'R', 'M', 'C') {
        SentenceKind::Rmc
    } else if is_code(t, '$', 'G', 'N', 'S') {
        SentenceKind::Gns
    } else if is_code(t, '$', 'G', 'S', 'A') {
        SentenceKind::Gsa
    } else if is_code(t, '$', 'G', 'S', 'V') {
        SentenceKind::Gsv
    } else if is_code(t, '$', 'V', 'T', 'G') {
        SentenceKind::Vtg
    } else if is_code(t, '$', 'G', 'L', 'L') {
        SentenceKind::Gll
    } else if is_code(t, '$', 'A', 'L', 'M') {
        SentenceKind::Alm
    } else if is_code(t, '$', 'D', 'T', 'M') {
        SentenceKind::Dtm
    } else if is_code(t, '$', 'M', 'S', 'S') {
        SentenceKind::Mss
    } else if is_code(t, '$', 'S', 'T', 'N') {
        SentenceKind::Stn
    } else if is_code(t, '$', 'V', 'B', 'W') {
        SentenceKind::Vbw
    } else if is_code(t, '$', 'Z', 'D', 'A') {
        SentenceKind::Zda
    } else if is_code(t, '!', 'V', 'D', 'M') {
        SentenceKind::Vdm
    } else if is_code(t, '!', 'V', 'D', 'O') {
        SentenceKind::Vdo
    } else if is_code(t, '$', 'D', 'P', 'T') {
        SentenceKind::Dpt
    } else if is_code(t, '$', 'D', 'B', 'S') {
        SentenceKind::Dbs
    } else if is_code(t, '$', 'M', 'T', 'W') {
        SentenceKind::Mtw
    } else if is_code(t, '$', 'V', 'H', 'W') {
        SentenceKind::Vhw
    } else if is_code(t, '$', 'H', 'D', 'T') {
        SentenceKind::Hdt
    } else if is_code(t, '$', 'M', 'W', 'V') {
        SentenceKind::Mwv
    } else {
        SentenceKind::Unknown
    }
}

/// Tells the kind of a sentence by its sentence type.
pub fn sentence_kind(sentence_type: &str) -> (k: SentenceKind)
    requires
        sentence_type.is_ascii(),
    ensures
        k == kind_of(sentence_type@),
{
    if ascii_len(sentence_type) != 4 {
        return SentenceKind::Unknown;
    }
    let m: char = sentence_type.get_ascii(0) as char;
    let a: char = sentence_type.get_ascii(1) as char;
    let b: char = sentence_type.get_ascii(2) as char;
    let c: char = sentence_type.get_ascii(3) as char;
    match (m, a, b, c) {
        ('$', 'G', 'G', 'A') => SentenceKind::Gga,
        ('$', 'R', 'M', 'C') => SentenceKind::Rmc,
        ('$', 'G', 'N', 'S') => SentenceKind::Gns,
        ('$', 'G', 'S', 'A') => SentenceKind::Gsa,
        ('$', 'G', 'S', 'V') => SentenceKind::Gsv,
        ('$', 'V', 'T', 'G') => SentenceKind::Vtg,
        ('$', 'G', 'L', 'L') => SentenceKind::Gll,
        ('$', 'A', 'L', 'M') => SentenceKind::Alm,
        ('$', 'D', 'T', 'M') => SentenceKind::Dtm,
        ('$', 'M', 'S', 'S') => SentenceKind::Mss,
        ('$', 'S', 'T', 'N') => SentenceKind::Stn,
        ('$', 'V', 'B', 'W') => SentenceKind::Vbw,
        ('$', 'Z', 'D', 'A') => SentenceKind::Zda,
        ('!', 'V', 'D', 'M') => SentenceKind::Vdm,
        ('!', 'V', 'D', 'O') => SentenceKind::Vdo,
        ('$', 'D', 'P', 'T') => SentenceKind::Dpt,
        ('$', 'D', 'B', 'S') => SentenceKind::Dbs,
        ('$', 'M', 'T', 'W') => SentenceKind::Mtw,
        ('$', 'V', 'H', 'W') => SentenceKind::Vhw,
        ('$', 'H', 'D', 'T') => SentenceKind::Hdt,
        ('$', 'M', 'W', 'V') => SentenceKind::Mwv,
        _ => SentenceKind::Unknown,
    }
}

} // verus!
