//! The fragment reassembler: joins the payloads of the two sentences of
//! an AIS message, in whichever order they come.

use crate::NmeaParser;
use crate::text::{
    ascii, decimal_chars, field_or_empty, lemma_ascii_concat, push_text, text_view, unsigned_up_to,
};
use crate::util::{fragment_key, make_fragment_key};
use vstd::prelude::*;
use vstd::string::*;

verus! {

/// One sentence of a message that may come in two, as its fields give it.
pub struct Fragment {
    /// The sentence type: `!VDM` or `!VDO`.
    pub sentence_type: Seq<char>,
    /// The number of sentences that the message comes in.
    pub count: u8,
    /// Which of them this is, counted from 1.
    pub number: u8,
    /// The id that the sentences of one message share, where one is
    /// given.
    pub message_id: Option<u64>,
    /// The radio channel code.
    pub channel: Seq<char>,
    /// The armored payload of this sentence.
    pub payload: Seq<char>,
}

impl Fragment {
    /// The key under which fragment `number` of this message is kept.
    pub open spec fn key(self, number: u8) -> Seq<char> {
        fragment_key(self.sentence_type, self.message_id.unwrap(), self.count, number, self.channel)
    }

    /// Whether this is one of the two sentences of a message in two.
    pub open spec fn is_half(self) -> bool {
        self.count == 2 && self.message_id is Some && (self.number == 1 || self.number == 2)
    }

    /// The number of the other sentence of a message in two.
    pub open spec fn partner(self) -> u8 {
        if self.number == 1 {
            2
        } else {
            1
        }
    }
}

/// What a sentence does to the fragments kept, and the whole payload that
/// it completes, if it does. A message in one sentence is whole. Of a
/// message in two, the sentence that comes first is kept under its key;
/// the one that comes second takes its partner out and gives the two
/// payloads joined, that of the first sentence in front. Any other
/// sentence changes nothing and completes nothing.
pub open spec fn reassembled(store: Map<Seq<char>, Seq<char>>, f: Fragment) -> (
    Map<Seq<char>, Seq<char>>,
    Option<Seq<char>>,
) {
    if f.count == 1 {
        (store, Some(f.payload))
    } else if f.is_half() {
        if store.contains_key(f.key(f.partner())) {
            let kept = store[f.key(f.partner())];
            (
                store.remove(f.key(f.partner())),
                Some(
                    if f.number == 1 {
                        f.payload + kept
                    } else {
                        kept + f.payload
                    },
                ),
            )
        } else {
            (store.insert(f.key(f.number), f.payload), None)
        }
    } else {
        (store, None)
    }
}

/// Whether the fields of an AIS sentence give a fragment count and a
/// fragment number that can be read: each, where the field is there, a
/// whole number up to 255.
pub open spec fn fragment_fields_valid(fields: Seq<Seq<char>>) -> bool {
    &&& fields.len() > 1 ==> unsigned_up_to(fields[1], 255) is Some
    &&& fields.len() > 2 ==> unsigned_up_to(fields[2], 255) is Some
}

/// The message of the error for a fragment count or number that cannot
/// be read.
pub open spec fn fragment_error_text(fields: Seq<Seq<char>>) -> Seq<char> {
    "Failed to parse fragment count: "@ + (if fields.len() > 1 && unsigned_up_to(fields[1], 255)
        is None {
        fields[1]
    } else {
        field_or_empty(fields, 2)
    })
}

/// The fragment that the fields of an AIS sentence give: count, number,
/// message id, channel and payload are the fields 1 to 5. A count or
/// number that is not there is 0; an id that cannot be read is none.
pub open spec fn fragment_of(sentence_type: Seq<char>, fields: Seq<Seq<char>>) -> Fragment {
    Fragment {
        sentence_type,
        count: if fields.len() > 1 {
            unsigned_up_to(fields[1], 255).unwrap() as u8
        } else {
            0
        },
        number: if fields.len() > 2 {
            unsigned_up_to(fields[2], 255).unwrap() as u8
        } else {
            0
        },
        message_id: if fields.len() > 3 && unsigned_up_to(fields[3], u64::MAX as nat) is Some {
            Some(unsigned_up_to(fields[3], u64::MAX as nat).unwrap() as u64)
        } else {
            None
        },
        channel: field_or_empty(fields, 4),
        payload: field_or_empty(fields, 5),
    }
}

impl NmeaParser {
    /// Puts one sentence of an AIS message through reassembly: gives the
    /// whole payload where the sentence completes one, and keeps the
    /// payload of a sentence that waits for its partner.
    pub fn reassemble(
        &mut self,
        sentence_type: &str,
        fragment_count: u8,
        fragment_number: u8,
        message_id: Option<u64>,
        radio_channel_code: &str,
        payload: String,
    ) -> (r: Option<String>)
        requires
            old(self).wf(),
            ascii(payload@),
        ensures
            final(self).wf(),
            final(self).static_data() == old(self).static_data(),
            (final(self).fragments(), text_view(r)) == reassembled(
                old(self).fragments(),
                Fragment {
                    sentence_type: sentence_type@,
                    count: fragment_count,
                    number: fragment_number,
                    message_id,
                    channel: radio_channel_code@,
                    payload: payload@,
                },
            ),
            r is Some ==> ascii(r.unwrap()@),
    {
        if fragment_count == 1 {
            return Some(payload);
        }
        if fragment_count != 2 {
            return None;
        }
        let msg_id: u64 = match message_id {
            Some(id) => id,
            None => {
                return None;
            },
        };
        if fragment_number == 1 {
            let key2: String = make_fragment_key(sentence_type, msg_id, 2, 2, radio_channel_code);
            match self.pull_string(key2) {
                Some(kept) => {
                    let mut whole: String = payload;
                    push_text(&mut whole, kept.as_str());
                    proof {
                        lemma_ascii_concat(payload@, kept@);
                    }
                    Some(whole)
                },
                None => {
                    let ghost before = old(self).fragments();
                    let key1: String = make_fragment_key(
                        sentence_type,
                        msg_id,
                        2,
                        1,
                        radio_channel_code,
                    );
                    assert(before.remove(key2@) =~= before);
                    self.push_string(key1, payload);
                    None
                },
            }
        } else if fragment_number == 2 {
            let key1: String = make_fragment_key(sentence_type, msg_id, 2, 1, radio_channel_code);
            match self.pull_string(key1) {
                Some(kept) => {
                    let mut whole: String = kept;
                    push_text(&mut whole, payload.as_str());
                    proof {
                        lemma_ascii_concat(kept@, payload@);
                    }
                    Some(whole)
                },
                None => {
                    let ghost before = old(self).fragments();
                    let key2: String = make_fragment_key(
                        sentence_type,
                        msg_id,
                        2,
                        2,
                        radio_channel_code,
                    );
                    assert(before.remove(key1@) =~= before);
                    self.push_string(key2, payload);
                    None
                },
            }
        } else {
            None
        }
    }
}

/// The keys of the two sentences of one message differ.
pub proof fn lemma_keys_differ(f: Fragment)
    ensures
        f.key(1) != f.key(2),
{
    let prefix = f.sentence_type + seq![','] + decimal_chars(f.count as nat) + seq![','];
    let i: int = prefix.len() as int;
    assert(decimal_chars(1)[0] == '1');
    assert(decimal_chars(2)[0] == '2');
    assert((prefix + decimal_chars(1))[i] == '1');
    assert((prefix + decimal_chars(2))[i] == '2');
    assert(f.key(1)[i] == '1');
    assert(f.key(2)[i] == '2');
}

/// Of a message in two, at most one sentence waits at a time: where the
/// store does not keep both sentences of a message before one of them
/// arrives, it does not after.
pub proof fn lemma_at_most_one_pending(store: Map<Seq<char>, Seq<char>>, f: Fragment)
    requires
        f.is_half(),
        !(store.contains_key(f.key(1)) && store.contains_key(f.key(2))),
    ensures
        !(reassembled(store, f).0.contains_key(f.key(1)) && reassembled(store, f).0.contains_key(
            f.key(2),
        )),
{
    lemma_keys_differ(f);
}

/// The two sentences of a message in two give the same whole payload in
/// either order: the one sent first is kept and completes nothing; the
/// one sent second gives the payload of sentence 1 followed by that of
/// sentence 2, and leaves the store as it was. So the record decoded is
/// the same either way. This holds from a store that keeps neither
/// sentence of that message.
pub proof fn lemma_fragment_order(
    store: Map<Seq<char>, Seq<char>>,
    sentence_type: Seq<char>,
    message_id: u64,
    channel: Seq<char>,
    payload1: Seq<char>,
    payload2: Seq<char>,
)
    requires
        !store.contains_key(fragment_key(sentence_type, message_id, 2, 1, channel)),
        !store.contains_key(fragment_key(sentence_type, message_id, 2, 2, channel)),
    ensures
        ({
            let f1 = Fragment {
                sentence_type,
                count: 2,
                number: 1,
                message_id: Some(message_id),
                channel,
                payload: payload1,
            };
            let f2 = Fragment {
                sentence_type,
                count: 2,
                number: 2,
                message_id: Some(message_id),
                channel,
                payload: payload2,
            };
            &&& reassembled(store, f1).1 is None
            &&& reassembled(store, f2).1 is None
            &&& reassembled(reassembled(store, f1).0, f2) == (store, Some(payload1 + payload2))
            &&& reassembled(reassembled(store, f2).0, f1) == (store, Some(payload1 + payload2))
        }),
{
    let f1 = Fragment {
        sentence_type,
        count: 2,
        number: 1,
        message_id: Some(message_id),
        channel,
        payload: payload1,
    };
    let f2 = Fragment {
        sentence_type,
        count: 2,
        number: 2,
        message_id: Some(message_id),
        channel,
        payload: payload2,
    };
    lemma_keys_differ(f1);
    let k1 = f1.key(1);
    let k2 = f1.key(2);
    assert(f2.key(1) == k1 && f2.key(2) == k2);
    assert(store.insert(k1, payload1).remove(k1) =~= store);
    assert(store.insert(k2, payload2).remove(k2) =~= store);
}

} // verus!
