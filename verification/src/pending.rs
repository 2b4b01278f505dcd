//! What waits in the fragment store: of no AIS message in two are both
//! sentences kept at once. Whichever sentence comes second finds the
//! first and takes it out.

use crate::{sentence_step, ParsedMessage};
use crate::ais::VesselStaticDataView;
use crate::error::ParseError;
use crate::gnss::NavigationSystem;
use crate::gnss::gsv::{collected, count_field, gsv_key};
use crate::kind::{kind_of, SentenceKind};
use crate::reassembly::{
    fragment_fields_valid, fragment_of, lemma_keys_differ, reassembled, Fragment,
};
use crate::sentence::{body_of, frame_error, nav_system_of, normalized_type, type_token};
use crate::text::{
    all_digits, decimal_chars, digit_char, digits_value, field_or_empty, first_index, free_of,
    is_digit, lemma_first_index, lemma_first_index_is_first, split_fields,
};
use crate::util::fragment_key;
use vstd::prelude::*;

verus! {

/// Of no AIS message in two does the store keep both sentences. A
/// message is told by its sentence type, its id and its channel, none of
/// which holds a comma.
pub open spec fn one_pending(store: Map<Seq<char>, Seq<char>>) -> bool {
    forall|t: Seq<char>, id: u64, ch: Seq<char>|
        #![trigger fragment_key(t, id, 2, 1, ch)]
        free_of(t, ',') && free_of(ch, ',') ==> !(store.contains_key(fragment_key(t, id, 2, 1, ch))
            && store.contains_key(fragment_key(t, id, 2, 2, ch)))
}

/// A store that keeps nothing keeps no sentence.
pub proof fn lemma_empty_one_pending()
    ensures
        one_pending(Map::<Seq<char>, Seq<char>>::empty()),
{
}

/// A text without a comma is one field.
pub proof fn lemma_split_one(a: Seq<char>)
    requires
        free_of(a, ','),
    ensures
        split_fields(a) == seq![a],
{
}

/// A text without a comma, a comma and more text split into that text
/// and the fields of the rest.
pub proof fn lemma_split_first(a: Seq<char>, rest: Seq<char>)
    requires
        free_of(a, ','),
    ensures
        split_fields(a + seq![','] + rest) == seq![a] + split_fields(rest),
{
    let s = a + seq![','] + rest;
    let i = a.len() as int;
    assert(s[i] == ',');
    assert forall|j: int| 0 <= j < i implies s[j] != ',' by {
        assert(s[j] == a[j]);
    }
    lemma_first_index(s, ',', i);
    assert(s.subrange(0, i) =~= a);
    assert(s.subrange(i + 1, s.len() as int) =~= rest);
}

/// The fields of a text hold no comma.
pub proof fn lemma_fields_comma_free(s: Seq<char>, k: int)
    requires
        0 <= k < split_fields(s).len(),
    ensures
        free_of(split_fields(s)[k], ','),
    decreases s.len(),
{
    match first_index(s, ',') {
        None => {},
        Some(i) => {
            lemma_first_index_is_first(s, ',');
            if k == 0 {
                assert forall|j: int| 0 <= j < i implies s.subrange(0, i)[j] != ',' by {
                    assert(s.subrange(0, i)[j] == s[j]);
                }
            } else {
                let rest = s.subrange(i + 1, s.len() as int);
                lemma_fields_comma_free(rest, k - 1);
                assert(split_fields(s)[k] == split_fields(rest)[k - 1]);
            }
        },
    }
}

/// The decimal digits of a number are digits, and write that number.
pub proof fn lemma_decimal_chars(n: nat)
    ensures
        all_digits(decimal_chars(n)),
        digits_value(decimal_chars(n)) == n,
        free_of(decimal_chars(n), ','),
    decreases n,
{
    let d = decimal_chars(n);
    assert(digits_value(d) == 10 * digits_value(d.drop_last()) + (d.last() as u8 - 48));
    if n < 10 {
        assert(d =~= seq![digit_char(n)]);
        assert(d.drop_last() =~= Seq::<char>::empty());
        assert(d.last() == digit_char(n));
        assert(digit_char(n) as u8 == 48 + n);
        assert(is_digit(d[0]));
    } else {
        lemma_decimal_chars(n / 10);
        let head = decimal_chars(n / 10);
        assert(d.drop_last() =~= head);
        assert(d.last() == digit_char(n % 10));
        assert(digit_char(n % 10) as u8 == 48 + n % 10);
        assert forall|i: int| 0 <= i < d.len() implies is_digit(#[trigger] d[i]) by {
            if i < head.len() {
                assert(d[i] == head[i]);
            }
        }
    }
    assert forall|i: int| 0 <= i < d.len() implies d[i] != ',' by {
        assert(is_digit(d[i]));
    }
}

/// The five fields of a fragment key.
pub proof fn lemma_fragment_key_fields(
    t: Seq<char>,
    id: u64,
    count: u8,
    number: u8,
    ch: Seq<char>,
)
    requires
        free_of(t, ','),
        free_of(ch, ','),
    ensures
        split_fields(fragment_key(t, id, count, number, ch)) == seq![
            t,
            decimal_chars(count as nat),
            decimal_chars(number as nat),
            decimal_chars(id as nat),
            ch,
        ],
{
    let c = decimal_chars(count as nat);
    let n = decimal_chars(number as nat);
    let i = decimal_chars(id as nat);
    lemma_decimal_chars(count as nat);
    lemma_decimal_chars(number as nat);
    lemma_decimal_chars(id as nat);
    let r3 = i + seq![','] + ch;
    let r2 = n + seq![','] + r3;
    let r1 = c + seq![','] + r2;
    assert(fragment_key(t, id, count, number, ch) =~= t + seq![','] + r1);
    lemma_split_first(t, r1);
    lemma_split_first(c, r2);
    lemma_split_first(n, r3);
    lemma_split_first(i, ch);
    lemma_split_one(ch);
    assert(seq![t] + (seq![c] + (seq![n] + (seq![i] + seq![ch]))) =~= seq![t, c, n, i, ch]);
}

/// The three fields of the key of a GSV sentence.
pub proof fn lemma_gsv_key_fields(t: Seq<char>, count: u32, number: u32)
    requires
        free_of(t, ','),
    ensures
        split_fields(gsv_key(t, count, number)).len() == 3,
{
    let c = decimal_chars(count as nat);
    let n = decimal_chars(number as nat);
    lemma_decimal_chars(count as nat);
    lemma_decimal_chars(number as nat);
    assert(gsv_key(t, count, number) =~= t + seq![','] + (c + seq![','] + n));
    lemma_split_first(t, c + seq![','] + n);
    lemma_split_first(c, n);
    lemma_split_one(n);
}

/// Two messages with the same key for one of their sentences are one
/// message, and the sentence is the same.
pub proof fn lemma_fragment_key_injective(
    t1: Seq<char>,
    id1: u64,
    n1: u8,
    ch1: Seq<char>,
    t2: Seq<char>,
    id2: u64,
    n2: u8,
    ch2: Seq<char>,
)
    requires
        free_of(t1, ','),
        free_of(ch1, ','),
        free_of(t2, ','),
        free_of(ch2, ','),
        fragment_key(t1, id1, 2, n1, ch1) == fragment_key(t2, id2, 2, n2, ch2),
    ensures
        t1 == t2,
        id1 == id2,
        n1 == n2,
        ch1 == ch2,
{
    lemma_fragment_key_fields(t1, id1, 2, n1, ch1);
    lemma_fragment_key_fields(t2, id2, 2, n2, ch2);
    let f1 = split_fields(fragment_key(t1, id1, 2, n1, ch1));
    let f2 = split_fields(fragment_key(t2, id2, 2, n2, ch2));
    assert(f1[0] == f2[0] && f1[2] == f2[2] && f1[3] == f2[3] && f1[4] == f2[4]);
    lemma_decimal_chars(id1 as nat);
    lemma_decimal_chars(id2 as nat);
    lemma_decimal_chars(n1 as nat);
    lemma_decimal_chars(n2 as nat);
}

/// Keeping a text under a key that is no fragment key leaves at most one
/// sentence of each message waiting.
pub proof fn lemma_insert_other_key(store: Map<Seq<char>, Seq<char>>, key: Seq<char>, value: Seq<char>)
    requires
        one_pending(store),
        split_fields(key).len() != 5,
    ensures
        one_pending(store.insert(key, value)),
{
    assert forall|t: Seq<char>, id: u64, ch: Seq<char>|
        #![trigger fragment_key(t, id, 2, 1, ch)]
        free_of(t, ',') && free_of(ch, ',') implies !(store.insert(key, value).contains_key(
        fragment_key(t, id, 2, 1, ch),
    ) && store.insert(key, value).contains_key(fragment_key(t, id, 2, 2, ch))) by {
        lemma_fragment_key_fields(t, id, 2, 1, ch);
        lemma_fragment_key_fields(t, id, 2, 2, ch);
    }
}

/// Taking a text out leaves at most one sentence of each message
/// waiting.
pub proof fn lemma_remove_key(store: Map<Seq<char>, Seq<char>>, key: Seq<char>)
    requires
        one_pending(store),
    ensures
        one_pending(store.remove(key)),
{
    assert forall|t: Seq<char>, id: u64, ch: Seq<char>|
        #![trigger fragment_key(t, id, 2, 1, ch)]
        free_of(t, ',') && free_of(ch, ',') implies !(store.remove(key).contains_key(
        fragment_key(t, id, 2, 1, ch),
    ) && store.remove(key).contains_key(fragment_key(t, id, 2, 2, ch))) by {
        assert(!(store.contains_key(fragment_key(t, id, 2, 1, ch)) && store.contains_key(
            fragment_key(t, id, 2, 2, ch),
        )));
    }
}

/// Reassembly leaves at most one sentence of each message waiting.
pub proof fn lemma_reassembled_one_pending(store: Map<Seq<char>, Seq<char>>, f: Fragment)
    requires
        one_pending(store),
        free_of(f.sentence_type, ','),
        free_of(f.channel, ','),
    ensures
        one_pending(reassembled(store, f).0),
{
    if f.count != 1 && f.is_half() {
        let own = f.key(f.number);
        let partner = f.key(f.partner());
        if store.contains_key(partner) {
            lemma_remove_key(store, partner);
        } else {
            let after = store.insert(own, f.payload);
            assert forall|t: Seq<char>, id: u64, ch: Seq<char>|
                #![trigger fragment_key(t, id, 2, 1, ch)]
                free_of(t, ',') && free_of(ch, ',') implies !(after.contains_key(
                fragment_key(t, id, 2, 1, ch),
            ) && after.contains_key(fragment_key(t, id, 2, 2, ch))) by {
                let k1 = fragment_key(t, id, 2, 1, ch);
                let k2 = fragment_key(t, id, 2, 2, ch);
                assert(!(store.contains_key(k1) && store.contains_key(k2)));
                let m = f.message_id.unwrap();
                lemma_keys_differ(f);
                assert(own == fragment_key(f.sentence_type, m, 2, f.number, f.channel));
                assert(partner == fragment_key(f.sentence_type, m, 2, f.partner(), f.channel));
                if k1 == own {
                    lemma_fragment_key_injective(
                        t,
                        id,
                        1,
                        ch,
                        f.sentence_type,
                        m,
                        f.number,
                        f.channel,
                    );
                    assert(k2 == partner);
                } else if k2 == own {
                    lemma_fragment_key_injective(
                        t,
                        id,
                        2,
                        ch,
                        f.sentence_type,
                        m,
                        f.number,
                        f.channel,
                    );
                    assert(k1 == partner);
                }
            }
        }
    }
}

/// Taking the sentences of a GSV series out leaves at most one sentence
/// of each AIS message waiting.
pub proof fn lemma_collected_one_pending(
    store: Map<Seq<char>, Seq<char>>,
    sentence_type: Seq<char>,
    count: u32,
    nav_system: NavigationSystem,
    k: nat,
)
    requires
        one_pending(store),
    ensures
        one_pending(collected(store, sentence_type, count, nav_system, k).0),
    decreases k,
{
    if k > 0 {
        lemma_collected_one_pending(store, sentence_type, count, nav_system, (k - 1) as nat);
        let prev = collected(store, sentence_type, count, nav_system, (k - 1) as nat);
        lemma_remove_key(prev.0, gsv_key(sentence_type, count, k as u32));
    }
}

/// A type token holds no comma, and so does the sentence type made of
/// it.
pub proof fn lemma_type_comma_free(body: Seq<char>)
    requires
        type_token(body) is Some,
    ensures
        free_of(type_token(body).unwrap(), ','),
        free_of(normalized_type(type_token(body).unwrap()), ','),
{
    lemma_first_index_is_first(body, ',');
    let i = first_index(body, ',').unwrap();
    let token = body.subrange(0, i);
    assert forall|j: int| 0 <= j < token.len() implies token[j] != ',' by {
        assert(token[j] == body[j]);
    }
    let t = normalized_type(token);
    assert forall|j: int| 0 <= j < t.len() implies t[j] != ',' by {
        if t != token {
            if j == 0 {
                assert(t[j] == token[0]);
            } else {
                assert(t[j] == token[j + 2]);
            }
        }
    }
}

/// Whatever line comes, of no AIS message in two does the parser come to
/// keep both sentences: where the fragments kept before a line hold at
/// most one sentence of each message, so do those kept after it.
pub proof fn lemma_sentence_keeps_one_pending(
    line: Seq<char>,
    fragments_before: Map<Seq<char>, Seq<char>>,
    static_before: Map<u32, VesselStaticDataView>,
    r: Result<ParsedMessage, ParseError>,
    fragments_after: Map<Seq<char>, Seq<char>>,
    static_after: Map<u32, VesselStaticDataView>,
)
    requires
        one_pending(fragments_before),
        sentence_step(line, fragments_before, static_before, r, fragments_after, static_after),
    ensures
        one_pending(fragments_after),
{
    if frame_error(line) is None {
        let body = body_of(line);
        let token = type_token(body).unwrap();
        let sentence_type = normalized_type(token);
        let fields = split_fields(body);
        lemma_type_comma_free(body);
        match kind_of(sentence_type) {
            SentenceKind::Vdm | SentenceKind::Vdo => {
                if fragment_fields_valid(fields) {
                    let f = fragment_of(sentence_type, fields);
                    if fields.len() > 4 {
                        lemma_fields_comma_free(body, 4);
                    }
                    lemma_reassembled_one_pending(fragments_before, f);
                }
            },
            SentenceKind::Gsv => {
                let t = field_or_empty(fields, 0);
                if fields.len() > 0 {
                    lemma_fields_comma_free(body, 0);
                }
                let count = count_field(fields, 1);
                let key = gsv_key(t, count, count_field(fields, 2));
                lemma_gsv_key_fields(t, count, count_field(fields, 2));
                lemma_insert_other_key(fragments_before, key, body);
                lemma_collected_one_pending(
                    fragments_before.insert(key, body),
                    t,
                    count,
                    nav_system_of(token),
                    count as nat,
                );
            },
            _ => {},
        }
    }
}

} // verus!
