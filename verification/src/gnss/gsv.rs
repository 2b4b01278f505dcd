//! GSV: satellites in view, which come in a series of sentences. Each
//! sentence of a series is kept until all have come; then the satellites
//! of all of them are given together.

use crate::{NmeaParser, ParsedMessage};
use crate::error::ParseError;
use crate::fields::{
    field_error_text, lenient_u16_field, lenient_u8_field, number_field_valid,
    pick_lenient_u16_field, pick_lenient_u8_field, pick_u32_field, u32_field,
};
use crate::gnss::NavigationSystem;
use crate::text::{
    all_ascii, decimal_chars, field, field_or_empty, push_char, push_decimal, split_commas,
    split_fields, views,
};
use vstd::prelude::*;
use vstd::string::*;

verus! {

/// One satellite in view: GSV.
#[derive(Clone, Copy, Debug, PartialEq)]
pub struct GsvData {
    /// The navigation system that the talker tells.
    pub source: NavigationSystem,
    /// PRN number of the satellite.
    pub prn_number: u8,
    /// Elevation in degrees, 90 at most.
    pub elevation: Option<u8>,
    /// Azimuth in degrees from true north, 0 to 359.
    pub azimuth: Option<u16>,
    /// Signal to noise ratio in dB; none while the satellite is not
    /// tracked.
    pub snr: Option<u8>,
}

/// The key under which sentence `msg_num` of a series of `msg_count` is
/// kept.
pub open spec fn gsv_key(sentence_type: Seq<char>, msg_count: u32, msg_num: u32) -> Seq<char> {
    sentence_type + seq![','] + decimal_chars(msg_count as nat) + seq![','] + decimal_chars(
        msg_num as nat,
    )
}

/// Makes the key under which a sentence of a series is kept.
pub fn make_gsv_key(sentence_type: &str, msg_count: u32, msg_num: u32) -> (key: String)
    ensures
        key@ == gsv_key(sentence_type@, msg_count, msg_num),
{
    let mut key: String = String::from_str(sentence_type);
    push_char(&mut key, ',');
    push_decimal(&mut key, msg_count as u64);
    push_char(&mut key, ',');
    push_decimal(&mut key, msg_num as u64);
    proof {
        let a = sentence_type@;
        assert(a.push(',') =~= a + seq![',']);
        let b = a + seq![','] + decimal_chars(msg_count as nat);
        assert(b.push(',') =~= b + seq![',']);
    }
    key
}

/// Satellite `j` of a sentence, counted from 0: its four fields start at
/// field 4 + 4 j. There is none where the PRN number cannot be read; of
/// the other three, what cannot be read is left out.
pub open spec fn satellite(
    fields: Seq<Seq<char>>,
    nav_system: NavigationSystem,
    j: int,
) -> Option<GsvData> {
    match lenient_u8_field(fields, 4 + 4 * j) {
        Some(prn) => Some(
            GsvData {
                source: nav_system,
                prn_number: prn,
                elevation: lenient_u8_field(fields, 4 + 4 * j + 1),
                azimuth: lenient_u16_field(fields, 4 + 4 * j + 2),
                snr: lenient_u8_field(fields, 4 + 4 * j + 3),
            },
        ),
        None => None,
    }
}

/// The first `k` satellites of a sentence, as far as it has them.
pub open spec fn satellites(
    fields: Seq<Seq<char>>,
    nav_system: NavigationSystem,
    k: nat,
) -> Seq<GsvData>
    decreases k,
{
    if k == 0 {
        Seq::empty()
    } else {
        satellites(fields, nav_system, (k - 1) as nat) + (match satellite(
            fields,
            nav_system,
            k - 1,
        ) {
            Some(s) => seq![s],
            None => Seq::empty(),
        })
    }
}

/// Appends the satellites of a sentence, four at most.
pub fn pick_satellites(fields: &Vec<String>, nav_system: NavigationSystem, out: &mut Vec<GsvData>)
    requires
        all_ascii(fields@),
    ensures
        final(out)@ == old(out)@ + satellites(views(fields@), nav_system, 4),
{
    let mut j: usize = 0;
    assert(out@ =~= old(out)@ + satellites(views(fields@), nav_system, 0));
    while j < 4
        invariant
            all_ascii(fields@),
            j <= 4,
            out@ == old(out)@ + satellites(views(fields@), nav_system, j as nat),
        decreases 4 - j,
    {
        let ghost before = out@;
        match pick_lenient_u8_field(fields, 4 + 4 * j) {
            Some(prn) => {
                out.push(
                    GsvData {
                        source: nav_system,
                        prn_number: prn,
                        elevation: pick_lenient_u8_field(fields, 4 + 4 * j + 1),
                        azimuth: pick_lenient_u16_field(fields, 4 + 4 * j + 2),
                        snr: pick_lenient_u8_field(fields, 4 + 4 * j + 3),
                    },
                );
            },
            None => {},
        }
        proof {
            let f = views(fields@);
            let head = satellites(f, nav_system, j as nat);
            let tail = match satellite(f, nav_system, j as int) {
                Some(s) => seq![s],
                None => Seq::empty(),
            };
            assert(out@ =~= old(out)@ + (head + tail));
        }
        j += 1;
    }
}

/// How many of the sentences 1 to `k` of a series are kept.
pub open spec fn kept_count(
    store: Map<Seq<char>, Seq<char>>,
    sentence_type: Seq<char>,
    msg_count: u32,
    k: nat,
) -> nat
    decreases k,
{
    if k == 0 {
        0
    } else {
        kept_count(store, sentence_type, msg_count, (k - 1) as nat) + (if store.contains_key(
            gsv_key(sentence_type, msg_count, k as u32),
        ) {
            1nat
        } else {
            0nat
        })
    }
}

/// The store after the sentences 1 to `k` of a series have been taken
/// out of it, and the satellites of those that were there, in order.
pub open spec fn collected(
    store: Map<Seq<char>, Seq<char>>,
    sentence_type: Seq<char>,
    msg_count: u32,
    nav_system: NavigationSystem,
    k: nat,
) -> (Map<Seq<char>, Seq<char>>, Seq<GsvData>)
    decreases k,
{
    if k == 0 {
        (store, Seq::empty())
    } else {
        let prev = collected(store, sentence_type, msg_count, nav_system, (k - 1) as nat);
        let key = gsv_key(sentence_type, msg_count, k as u32);
        if prev.0.contains_key(key) {
            (prev.0.remove(key), prev.1 + satellites(split_fields(prev.0[key]), nav_system, 4))
        } else {
            prev
        }
    }
}

/// The number in a field of a GSV sentence; 0 where the field is empty
/// or missing.
pub open spec fn count_field(fields: Seq<Seq<char>>, num: int) -> u32 {
    match u32_field(fields, num) {
        Some(n) => n,
        None => 0,
    }
}

/// What a GSV sentence does, given the texts kept `before`. A count or a
/// number of the sentence that cannot be read is an error. Else the
/// sentence is kept under its key; where all sentences of its series are
/// then kept, they are taken out and their satellites given; else the
/// result is `Incomplete`.
pub open spec fn gsv_step(
    fields: Seq<Seq<char>>,
    body: Seq<char>,
    nav_system: NavigationSystem,
    before: Map<Seq<char>, Seq<char>>,
    r: Result<ParsedMessage, ParseError>,
    after: Map<Seq<char>, Seq<char>>,
) -> bool {
    let sentence_type = field_or_empty(fields, 0);
    let count = count_field(fields, 1);
    let kept = before.insert(gsv_key(sentence_type, count, count_field(fields, 2)), body);
    if !number_field_valid(fields, 1, 0xffff_ffff) {
        &&& after == before
        &&& r is Err
        &&& r.unwrap_err() is InvalidSentence
        &&& r.unwrap_err().text() == field_error_text(1, field_or_empty(fields, 1))
    } else if !number_field_valid(fields, 2, 0xffff_ffff) {
        &&& after == before
        &&& r is Err
        &&& r.unwrap_err() is InvalidSentence
        &&& r.unwrap_err().text() == field_error_text(2, field_or_empty(fields, 2))
    } else if kept_count(kept, sentence_type, count, count as nat) == count {
        &&& after == collected(kept, sentence_type, count, nav_system, count as nat).0
        &&& match r {
            Ok(ParsedMessage::Gsv(v)) => v@ == collected(
                kept,
                sentence_type,
                count,
                nav_system,
                count as nat,
            ).1,
            _ => false,
        }
    } else {
        &&& after == kept
        &&& r is Ok
        &&& r.unwrap() is Incomplete
    }
}

/// Decodes a GSV sentence from its fields and its body. The sentences of
/// an unfinished series are kept in the parser.
pub fn handle(
    fields: &Vec<String>,
    body: &str,
    nav_system: NavigationSystem,
    store: &mut NmeaParser,
) -> (r: Result<ParsedMessage, ParseError>)
    requires
        old(store).wf(),
        all_ascii(fields@),
        body.is_ascii(),
    ensures
        final(store).wf(),
        final(store).static_data() == old(store).static_data(),
        gsv_step(
            views(fields@),
            body@,
            nav_system,
            old(store).fragments(),
            r,
            final(store).fragments(),
        ),
{
    let sentence_type: &str = field(fields, 0);
    let count: u32 = match pick_u32_field(fields, 1) {
        Ok(Some(n)) => n,
        Ok(None) => 0,
        Err(e) => {
            return Err(e);
        },
    };
    let number: u32 = match pick_u32_field(fields, 2) {
        Ok(Some(n)) => n,
        Ok(None) => 0,
        Err(e) => {
            return Err(e);
        },
    };
    store.push_string(make_gsv_key(sentence_type, count, number), String::from_str(body));
    let ghost kept = store.fragments();
    let mut found: u32 = 0;
    let mut i: u32 = 0;
    while i < count
        invariant
            i <= count,
            found <= i,
            found == kept_count(kept, sentence_type@, count, i as nat),
            store.fragments() == kept,
            store.wf(),
            store.static_data() == old(store).static_data(),
        decreases count - i,
    {
        i += 1;
        if store.contains_key(make_gsv_key(sentence_type, count, i)) {
            found += 1;
        }
    }
    if found != count {
        return Ok(ParsedMessage::Incomplete);
    }
    let mut v: Vec<GsvData> = Vec::new();
    let mut i: u32 = 0;
    while i < count
        invariant
            i <= count,
            store.wf(),
            store.static_data() == old(store).static_data(),
            (store.fragments(), v@) == collected(kept, sentence_type@, count, nav_system, i as nat),
        decreases count - i,
    {
        i += 1;
        let ghost before = store.fragments();
        let ghost sats = v@;
        match store.pull_string(make_gsv_key(sentence_type, count, i)) {
            Some(sentence) => {
                let parts: Vec<String> = split_commas(sentence.as_str());
                pick_satellites(&parts, nav_system, &mut v);
            },
            None => {
                assert(before.remove(gsv_key(sentence_type@, count, i)) =~= before);
            },
        }
    }
    Ok(ParsedMessage::Gsv(v))
}

} // verus!
