//! The sentence framer: checks the checksum of a line, tells its talker
//! and its kind, and splits it into fields.

use crate::ais::Station;
use crate::error::ParseError;
use crate::gnss::NavigationSystem;
use crate::text::{
    all_ascii, ascii, ascii_len, find_char, first_index, free_of, hex2, hex2_string, is_last,
    last_index, lemma_hex2_injective, lemma_last_index, lemma_last_index_is_last, push_char,
    push_text, rfind_char, same_text, split_commas, split_fields, substring, views,
};
use vstd::prelude::*;
use vstd::string::*;

verus! {

broadcast use vstd::string::group_string_axioms;

/// The bytes of the characters of `s`, folded with exclusive or.
pub open spec fn xor_fold(s: Seq<char>) -> u8
    decreases s.len(),
{
    if s.len() == 0 {
        0
    } else {
        xor_fold(s.drop_last()) ^ (s.last() as u8)
    }
}

/// `s` without its first character.
pub open spec fn skip_first(s: Seq<char>) -> Seq<char> {
    if s.len() > 0 {
        s.subrange(1, s.len() as int)
    } else {
        s
    }
}

/// The body of a line: what stands before its last `*`, or the whole line
/// where it has none.
pub open spec fn body_of(line: Seq<char>) -> Seq<char> {
    match last_index(line, '*') {
        Some(p) => if 0 <= p <= line.len() {
            line.subrange(0, p)
        } else {
            line
        },
        None => line,
    }
}

/// The checksum that a line gives: the two characters after its last `*`;
/// empty where the line has no `*` or fewer than two characters after it.
pub open spec fn given_checksum(line: Seq<char>) -> Seq<char> {
    match last_index(line, '*') {
        Some(p) => if 0 <= p && p + 3 <= line.len() {
            line.subrange(p + 1, p + 3)
        } else {
            Seq::empty()
        },
        None => Seq::empty(),
    }
}

/// The checksum of a line, computed: the exclusive or of the characters
/// of its body after the marker, as two upper-case hexadecimal digits.
pub open spec fn computed_checksum(line: Seq<char>) -> Seq<char> {
    hex2(xor_fold(skip_first(body_of(line))))
}

/// What follows the last `*` of a line: the checksum and whatever else a
/// relay has added. Empty where the line has no `*`.
pub open spec fn trailing_of(line: Seq<char>) -> Seq<char> {
    match last_index(line, '*') {
        Some(p) => if 0 <= p < line.len() {
            line.subrange(p + 1, line.len() as int)
        } else {
            Seq::empty()
        },
        None => Seq::empty(),
    }
}

/// Whether a line gives a checksum that is not the one computed.
pub open spec fn corrupted(line: Seq<char>) -> bool {
    given_checksum(line).len() > 0 && given_checksum(line) != computed_checksum(line)
}

/// The message of the error for a corrupted line.
pub open spec fn corrupted_text(line: Seq<char>) -> Seq<char> {
    "Corrupted NMEA sentence: \""@ + computed_checksum(line) + "\" != \""@ + given_checksum(line)
        + "\""@
}

/// The type token of a body: what stands before its first comma.
pub open spec fn type_token(body: Seq<char>) -> Option<Seq<char>> {
    match first_index(body, ',') {
        Some(i) => if 0 <= i <= body.len() {
            Some(body.subrange(0, i))
        } else {
            None
        },
        None => None,
    }
}

/// The talker of a type token: what follows its marker.
pub open spec fn talker_of(token: Seq<char>) -> Seq<char> {
    skip_first(token)
}

/// Whether the token starts with the marker `m`.
pub open spec fn has_marker(token: Seq<char>, m: char) -> bool {
    token.len() > 0 && token[0] == m
}

/// Whether the talker of a type token is long enough to be told: behind
/// `$` one character where that is `P`, else two; behind `!` two.
pub open spec fn talker_known(token: Seq<char>) -> bool {
    let t = talker_of(token);
    if has_marker(token, '$') {
        t.len() >= 1 && (t[0] == 'P' || t.len() >= 2)
    } else if has_marker(token, '!') {
        t.len() >= 2
    } else {
        true
    }
}

/// The sentence type of a type token: of a token of six characters with
/// a marker, the marker and the last three; else the token itself.
pub open spec fn normalized_type(token: Seq<char>) -> Seq<char> {
    if (has_marker(token, '$') || has_marker(token, '!')) && token.len() == 6 {
        seq![token[0]] + token.subrange(3, 6)
    } else {
        token
    }
}

/// The navigation system that a type token tells: that of its talker
/// behind `$`, else `Other`.
pub open spec fn nav_system_of(token: Seq<char>) -> NavigationSystem {
    if has_marker(token, '$') {
        NavigationSystem::of(talker_of(token))
    } else {
        NavigationSystem::Other
    }
}

/// The station that a type token tells: that of its talker behind `!`,
/// else `Other`.
pub open spec fn station_of(token: Seq<char>) -> Station {
    if has_marker(token, '!') {
        Station::of(talker_of(token))
    } else {
        Station::Other
    }
}

/// The message of the error for a talker that is too short.
pub open spec fn talker_error_text(token: Seq<char>) -> Seq<char> {
    if has_marker(token, '$') {
        "Invalid talker identifier"@
    } else {
        "Invalid station identifier"@
    }
}

/// A line taken apart.
#[derive(Clone, Debug, PartialEq)]
pub struct Sentence {
    /// The sentence type, without the talker: `$GGA`, `!VDM`.
    pub sentence_type: String,
    /// The navigation system that the talker of a `$` sentence tells.
    pub nav_system: NavigationSystem,
    /// The station that the talker of a `!` sentence tells.
    pub station: Station,
    /// The body of the line: what stands before its checksum.
    pub body: String,
    /// The body of the line, split at its commas.
    pub fields: Vec<String>,
    /// What follows the `*` of the line: its checksum and anything after.
    pub trailing: String,
}

/// Whether `s` is what framing `line` gives.
pub open spec fn is_frame_of(line: Seq<char>, s: Sentence) -> bool {
    let token = type_token(body_of(line)).unwrap();
    &&& s.sentence_type@ == normalized_type(token)
    &&& ascii(s.sentence_type@)
    &&& s.nav_system == nav_system_of(token)
    &&& s.station == station_of(token)
    &&& s.body@ == body_of(line)
    &&& ascii(s.body@)
    &&& views(s.fields@) == split_fields(body_of(line))
    &&& all_ascii(s.fields@)
    &&& s.trailing@ == trailing_of(line)
}

/// Why a line cannot be framed, if it cannot: its checksum is wrong, it
/// has no comma, or its talker is too short.
pub open spec fn frame_error(line: Seq<char>) -> Option<FrameError> {
    if corrupted(line) {
        Some(FrameError::Corrupted)
    } else if type_token(body_of(line)) is None {
        Some(FrameError::NoComma)
    } else if !talker_known(type_token(body_of(line)).unwrap()) {
        Some(FrameError::ShortTalker)
    } else {
        None
    }
}

/// Why a line cannot be framed.
pub enum FrameError {
    /// The checksum given is not the one computed.
    Corrupted,
    /// The line has no comma, so no type token.
    NoComma,
    /// The talker is too short to be told.
    ShortTalker,
}

/// Whether `e` is the error that framing `line` ends in.
pub open spec fn is_frame_error(line: Seq<char>, e: ParseError) -> bool {
    match frame_error(line) {
        Some(FrameError::Corrupted) => e is CorruptedSentence && e.text() == corrupted_text(line),
        Some(FrameError::NoComma) => e is InvalidSentence && e.text() == "Invalid NMEA sentence: "@
            + body_of(line),
        Some(FrameError::ShortTalker) => e is InvalidSentence && e.text() == talker_error_text(
            type_token(body_of(line)).unwrap(),
        ),
        None => false,
    }
}

/// A prefix of a text folds to the fold of one character less, and that
/// character.
proof fn lemma_xor_fold_push(s: Seq<char>, c: char)
    ensures
        xor_fold(s.push(c)) == xor_fold(s) ^ (c as u8),
{
    assert(s.push(c).drop_last() =~= s);
}

/// The exclusive or of the characters `from..to` of an ASCII string.
fn checksum(s: &str, from: usize, to: usize) -> (r: u8)
    requires
        s.is_ascii(),
        from <= to <= s@.len(),
    ensures
        r == xor_fold(s@.subrange(from as int, to as int)),
{
    let mut r: u8 = 0;
    let mut i: usize = from;
    assert(s@.subrange(from as int, from as int) =~= Seq::<char>::empty());
    while i < to
        invariant
            s.is_ascii(),
            from <= i <= to <= s@.len(),
            r == xor_fold(s@.subrange(from as int, i as int)),
        decreases to - i,
    {
        let b: u8 = s.get_ascii(i);
        proof {
            lemma_xor_fold_push(s@.subrange(from as int, i as int), s@[i as int]);
            assert(s@.subrange(from as int, i as int).push(s@[i as int]) =~= s@.subrange(
                from as int,
                i as int + 1,
            ));
        }
        r = r ^ b;
        i += 1;
    }
    r
}

/// Takes a line apart: checks the checksum where the line gives one,
/// tells the talker, and splits the body at its commas.
pub fn frame(line: &str) -> (r: Result<Sentence, ParseError>)
    requires
        line.is_ascii(),
    ensures
        r is Ok <==> frame_error(line@) is None,
        r is Ok ==> is_frame_of(line@, r.unwrap()),
        r is Err ==> is_frame_error(line@, r.unwrap_err()),
{
    let n: usize = ascii_len(line);
    let star: Option<usize> = rfind_char(line, '*');
    let body_end: usize = match star {
        Some(p) => p,
        None => n,
    };
    let body: String = substring(line, 0, body_end);
    let trailing: String = match star {
        Some(p) => substring(line, p + 1, n),
        None => substring(line, 0, 0),
    };
    proof {
        if star is None {
            assert(line@.subrange(0, n as int) =~= line@);
        }
        assert(body@ == body_of(line@));
        assert(trailing@ =~= trailing_of(line@));
    }
    let from: usize = if body_end > 0 {
        1
    } else {
        0
    };
    let sum: u8 = checksum(line, from, body_end);
    proof {
        if body_end > 0 {
            assert(body@.subrange(1, body@.len() as int) =~= line@.subrange(1, body_end as int));
        } else {
            assert(line@.subrange(0, 0) =~= body@);
        }
        assert(sum == xor_fold(skip_first(body@)));
    }
    match star {
        Some(p) => {
            if n - p >= 3 {
                let given: String = substring(line, p + 1, p + 3);
                let computed: String = hex2_string(sum);
                if !same_text(computed.as_str(), given.as_str()) {
                    let mut msg: String = String::from_str("Corrupted NMEA sentence: \"");
                    push_text(&mut msg, computed.as_str());
                    push_text(&mut msg, "\" != \"");
                    push_text(&mut msg, given.as_str());
                    push_text(&mut msg, "\"");
                    return Err(ParseError::CorruptedSentence(msg));
                }
            }
        },
        None => {},
    }
    assert(!corrupted(line@));
    let comma: usize = match find_char(body.as_str(), ',') {
        Some(i) => i,
        None => {
            let mut msg: String = String::from_str("Invalid NMEA sentence: ");
            push_text(&mut msg, body.as_str());
            return Err(ParseError::InvalidSentence(msg));
        },
    };
    let token: String = substring(body.as_str(), 0, comma);
    let len: usize = comma;
    let marker: char = if len > 0 {
        token.as_str().get_ascii(0) as char
    } else {
        ' '
    };
    let talker: String = if len > 0 {
        substring(token.as_str(), 1, len)
    } else {
        substring(token.as_str(), 0, 0)
    };
    let mut nav_system = NavigationSystem::Other;
    let mut station = Station::Other;
    if marker == '$' {
        nav_system = match NavigationSystem::from_talker(talker.as_str()) {
            Ok(s) => s,
            Err(e) => {
                return Err(e);
            },
        };
    } else if marker == '!' {
        station = match Station::from_talker(talker.as_str()) {
            Ok(s) => s,
            Err(e) => {
                return Err(e);
            },
        };
    }
    let sentence_type: String = if (marker == '$' || marker == '!') && len == 6 {
        let mut t: String = String::new();
        push_char(&mut t, marker);
        let tail: String = substring(token.as_str(), 3, 6);
        push_text(&mut t, tail.as_str());
        assert(t@ =~= seq![token@[0]] + token@.subrange(3, 6));
        t
    } else {
        token
    };
    let fields: Vec<String> = split_commas(body.as_str());
    Ok(Sentence { sentence_type, nav_system, station, body, fields, trailing })
}

/// A line made of a body without `*`, a `*`, and the two digits of the
/// body's checksum is not corrupted: the checksum computed is the one
/// given.
pub proof fn lemma_checksum_round_trip(body: Seq<char>)
    requires
        free_of(body, '*'),
    ensures
        body_of(body + seq!['*'] + hex2(xor_fold(skip_first(body)))) == body,
        given_checksum(body + seq!['*'] + hex2(xor_fold(skip_first(body)))) == hex2(
            xor_fold(skip_first(body)),
        ),
        !corrupted(body + seq!['*'] + hex2(xor_fold(skip_first(body)))),
{
    let digits = hex2(xor_fold(skip_first(body)));
    let line = body + seq!['*'] + digits;
    let p = body.len() as int;
    assert(line[p] == '*');
    assert(line[p + 1] == digits[0]);
    assert(line[p + 2] == digits[1]);
    assert(digits[0] != '*' && digits[1] != '*');
    lemma_last_index(line, '*', p);
    assert(line.subrange(0, p) =~= body);
    assert(line.subrange(p + 1, p + 3) =~= digits);
}

/// Changing one character changes the fold by that character and the new
/// one.
pub proof fn lemma_xor_fold_update(s: Seq<char>, i: int, c: char)
    requires
        0 <= i < s.len(),
    ensures
        xor_fold(s.update(i, c)) == xor_fold(s) ^ (s[i] as u8) ^ (c as u8),
    decreases s.len(),
{
    let t = s.update(i, c);
    if i == s.len() - 1 {
        assert(t.drop_last() =~= s.drop_last());
        let x = xor_fold(s.drop_last());
        let a = s[i] as u8;
        let b = c as u8;
        assert(x ^ b == (x ^ a) ^ a ^ b) by (bit_vector);
    } else {
        lemma_xor_fold_update(s.drop_last(), i, c);
        assert(t.drop_last() =~= s.drop_last().update(i, c));
        let x = xor_fold(s.drop_last());
        let a = s[i] as u8;
        let b = c as u8;
        let l = s.last() as u8;
        assert((x ^ a ^ b) ^ l == (x ^ l) ^ a ^ b) by (bit_vector);
    }
}

/// Changing one character of the body of a line that gives its checksum,
/// the marker left alone, makes the line corrupted.
pub proof fn lemma_corruption_detected(line: Seq<char>, i: int, c: char)
    requires
        ascii(line),
        '\0' <= c <= '\u{7f}',
        given_checksum(line).len() > 0,
        !corrupted(line),
        1 <= i < body_of(line).len(),
        c != line[i],
    ensures
        corrupted(line.update(i, c)),
{
    let p = last_index(line, '*').unwrap();
    lemma_last_index_is_last(line, '*');
    let changed = line.update(i, c);
    assert(i < p);
    assert(is_last(changed, '*', p));
    lemma_last_index(changed, '*', p);
    let body = line.subrange(0, p);
    assert(changed.subrange(0, p) =~= body.update(i, c));
    assert(changed.subrange(p + 1, p + 3) =~= line.subrange(p + 1, p + 3));
    let rest = skip_first(body);
    assert(skip_first(body.update(i, c)) =~= rest.update(i - 1, c));
    lemma_xor_fold_update(rest, i - 1, c);
    let x = xor_fold(rest);
    let a = rest[i - 1] as u8;
    let b = c as u8;
    assert(line[i] == rest[i - 1]);
    assert('\0' <= line[i] <= '\u{7f}');
    assert(a != b);
    assert(x ^ a ^ b != x) by (bit_vector)
        requires
            a != b,
    ;
    if hex2(x ^ a ^ b) == hex2(x) {
        lemma_hex2_injective(x ^ a ^ b, x);
    }
}

} // verus!
