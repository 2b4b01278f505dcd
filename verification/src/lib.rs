//! Decoder for NMEA 0183 sentences: AIS payloads and GNSS text sentences.
//!
//! A line is taken apart by the framer in [`sentence`], which checks its
//! checksum, tells its talker and splits it at its commas. The sentence
//! type then picks the decoder:
//!
//! - An AIS sentence (`!..VDM`, `!..VDO`) carries an armored payload, in
//!   one sentence or in two. [`NmeaParser`] joins the payloads of the two
//!   sentences of a message, in whichever order they come; the codec in
//!   [`util`] turns the payload into bits and reads numbers and text from
//!   them; the modules under [`ais`] lay out the fields of each message
//!   type.
//! - A GNSS sentence (`$..GGA`, `$..RMC`, ...) is decoded from its text
//!   fields by the modules under [`gnss`], with the readers in [`fields`].
//!
//! Every quantity is held exactly: positions and speeds of AIS messages
//! as whole numbers of the unit that the field's name gives, decimal
//! fields of GNSS sentences as [`decimal::Decimal`], dates and times as
//! [`datetime::UtcDateTime`].
//!
//! The parser keeps what waits for a partner: the first sentence of an
//! AIS message in two, the first part of a type 24 report, the sentences
//! of an unfinished GSV series. No sentence says how long to wait, so
//! what never finds its partner stays until [`NmeaParser::reset`]; a
//! caller on a lossy feed should call it from time to time.

pub mod ais;
pub mod bitseq;
pub mod datetime;
pub mod decimal;
pub mod error;
pub mod fields;
pub mod gnss;
pub mod kind;
pub mod pending;
pub mod position;
pub mod reassembly;
pub mod sentence;
pub mod store;
pub mod text;
pub mod times;
pub mod util;

pub use error::ParseError;

use crate::ais::{Station, VesselStaticData, VesselStaticDataView};
use crate::ais::dispatch::ais_step;
use crate::bitseq::max_bits;
use crate::gnss::NavigationSystem;
use crate::kind::{kind_of, sentence_kind, SentenceKind};
use crate::reassembly::{
    fragment_error_text, fragment_fields_valid, fragment_of, lemma_fragment_order, reassembled,
    Fragment,
};
use crate::sentence::{
    body_of, frame, frame_error, is_frame_error, nav_system_of, normalized_type, station_of,
    type_token, Sentence,
};
use crate::store::{
    fragment_map, fragments_clear, fragments_contains, fragments_insert, fragments_len,
    fragments_new, fragments_remove, static_data_clear, static_data_insert, static_data_len,
    static_data_map, static_data_new, static_data_remove, FragmentStore, StaticDataStore,
};
use crate::text::{all_ascii, ascii, parse_u64, parse_u8, push_text, split_fields, views};
use crate::util::{armor_bits, bits_value, parse_payload};
use vstd::prelude::*;
use vstd::string::*;

verus! {

/// What a sentence decodes to.
#[derive(Clone, Debug, PartialEq)]
pub enum ParsedMessage {
    /// The sentence is one part of a message in several sentences, and
    /// the other parts have not all been seen.
    Incomplete,
    /// AIS types 1, 2, 3, 18 and 27.
    VesselDynamicData(ais::VesselDynamicData),
    /// AIS types 5 and 24.
    VesselStaticData(ais::VesselStaticData),
    /// AIS type 4.
    BaseStationReport(ais::BaseStationReport),
    /// AIS type 6.
    BinaryAddressedMessage(ais::BinaryAddressedMessage),
    /// AIS type 9.
    StandardSarAircraftPositionReport(ais::StandardSarAircraftPositionReport),
    /// AIS type 10.
    UtcDateInquiry(ais::UtcDateInquiry),
    /// AIS type 11.
    UtcDateResponse(ais::BaseStationReport),
    /// AIS type 12.
    AddressedSafetyRelatedMessage(ais::AddressedSafetyRelatedMessage),
    /// AIS type 13.
    SafetyRelatedAcknowledgement(ais::SafetyRelatedAcknowledgement),
    /// AIS type 14.
    SafetyRelatedBroadcastMessage(ais::SafetyRelatedBroadcastMessage),
    /// AIS type 15.
    Interrogation(ais::Interrogation),
    /// AIS type 16.
    AssignmentModeCommand(ais::AssignmentModeCommand),
    /// AIS type 17.
    DgnssBroadcastBinaryMessage(ais::DgnssBroadcastBinaryMessage),
    /// AIS type 20.
    DataLinkManagementMessage(ais::DataLinkManagementMessage),
    /// AIS type 21.
    AidToNavigationReport(ais::AidToNavigationReport),
    /// AIS type 22.
    ChannelManagement(ais::ChannelManagement),
    /// AIS type 23.
    GroupAssignmentCommand(ais::GroupAssignmentCommand),
    /// AIS type 25.
    SingleSlotBinaryMessage(ais::SingleSlotBinaryMessage),
    /// AIS type 26.
    MultipleSlotBinaryMessage(ais::MultipleSlotBinaryMessage),
    /// GGA.
    Gga(gnss::GgaData),
    /// RMC.
    Rmc(gnss::RmcData),
    /// GNS.
    Gns(gnss::GnsData),
    /// GSA.
    Gsa(gnss::GsaData),
    /// GSV: the satellites of a whole series of sentences.
    Gsv(Vec<gnss::GsvData>),
    /// VTG.
    Vtg(gnss::VtgData),
    /// GLL.
    Gll(gnss::GllData),
    /// ALM.
    Alm(gnss::AlmData),
    /// DTM.
    Dtm(gnss::DtmData),
    /// MSS.
    Mss(gnss::MssData),
    /// STN.
    Stn(gnss::StnData),
    /// VBW.
    Vbw(gnss::VbwData),
    /// ZDA.
    Zda(gnss::ZdaData),
    /// DPT.
    Dpt(gnss::DptData),
    /// DBS.
    Dbs(gnss::DbsData),
    /// MTW.
    Mtw(gnss::MtwData),
    /// VHW.
    Vhw(gnss::VhwData),
    /// HDT.
    Hdt(gnss::HdtData),
    /// MWV.
    Mwv(gnss::MwvData),
}

/// A decoder of NMEA sentences. It keeps the parts of messages that come
/// in several sentences from one call of `parse_sentence` to the next.
/// A part whose partner never comes stays until `reset`.
pub struct NmeaParser {
    saved_fragments: FragmentStore,
    saved_vsds: StaticDataStore,
}

impl Default for NmeaParser {
    fn default() -> (p: NmeaParser)
        ensures
            p.fragments() == Map::<Seq<char>, Seq<char>>::empty(),
            p.static_data() == Map::<u32, VesselStaticDataView>::empty(),
            p.wf(),
    {
        NmeaParser::new()
    }
}

impl NmeaParser {
    /// The text kept under each key.
    pub closed spec fn fragments(&self) -> Map<Seq<char>, Seq<char>> {
        fragment_map(&self.saved_fragments)
    }

    /// The static data part kept under each MMSI.
    pub closed spec fn static_data(&self) -> Map<u32, VesselStaticDataView> {
        static_data_map(&self.saved_vsds)
    }

    /// Every text kept is ASCII.
    pub open spec fn wf(&self) -> bool {
        forall|k: Seq<char>| #[trigger]
            self.fragments().contains_key(k) ==> ascii(self.fragments()[k])
    }

    /// Makes a parser that keeps nothing.
    pub fn new() -> (p: NmeaParser)
        ensures
            p.fragments() == Map::<Seq<char>, Seq<char>>::empty(),
            p.static_data() == Map::<u32, VesselStaticDataView>::empty(),
            p.wf(),
    {
        NmeaParser { saved_fragments: fragments_new(), saved_vsds: static_data_new() }
    }

    /// Drops everything that is kept.
    pub fn reset(&mut self)
        ensures
            final(self).fragments() == Map::<Seq<char>, Seq<char>>::empty(),
            final(self).static_data() == Map::<u32, VesselStaticDataView>::empty(),
            final(self).wf(),
    {
        fragments_clear(&mut self.saved_fragments);
        static_data_clear(&mut self.saved_vsds);
    }

    /// Keeps a text under a key, in place of what was kept under it.
    pub fn push_string(&mut self, key: String, value: String)
        requires
            old(self).wf(),
            ascii(value@),
        ensures
            final(self).wf(),
            final(self).fragments() == old(self).fragments().insert(key@, value@),
            final(self).static_data() == old(self).static_data(),
    {
        fragments_insert(&mut self.saved_fragments, key, value);
        proof {
            assert forall|k: Seq<char>| #[trigger]
                self.fragments().contains_key(k) implies ascii(self.fragments()[k]) by {
                if k != key@ {
                    assert(old(self).fragments().contains_key(k));
                }
            }
        }
    }

    /// Takes out the text kept under a key, if there is one.
    pub fn pull_string(&mut self, key: String) -> (r: Option<String>)
        requires
            old(self).wf(),
        ensures
            final(self).wf(),
            final(self).fragments() == old(self).fragments().remove(key@),
            final(self).static_data() == old(self).static_data(),
            r.is_some() == old(self).fragments().contains_key(key@),
            r.is_some() ==> r.unwrap()@ == old(self).fragments()[key@] && ascii(r.unwrap()@),
    {
        let r = fragments_remove(&mut self.saved_fragments, key.as_str());
        proof {
            assert forall|k: Seq<char>| #[trigger]
                self.fragments().contains_key(k) implies ascii(self.fragments()[k]) by {
                assert(old(self).fragments().contains_key(k));
            }
            if r.is_some() {
                assert(old(self).fragments().contains_key(key@));
            }
        }
        r
    }

    /// Whether a text is kept under a key.
    pub fn contains_key(&self, key: String) -> (r: bool)
        ensures
            r == self.fragments().contains_key(key@),
    {
        fragments_contains(&self.saved_fragments, key.as_str())
    }

    /// The number of texts kept.
    pub fn strings_count(&self) -> (n: usize)
        ensures
            n == self.fragments().dom().len(),
    {
        fragments_len(&self.saved_fragments)
    }

    /// Keeps a static data part under an MMSI, in place of what was kept
    /// under it.
    pub fn push_vsd(&mut self, mmsi: u32, vsd: VesselStaticData)
        ensures
            final(self).static_data() == old(self).static_data().insert(mmsi, vsd@),
            final(self).fragments() == old(self).fragments(),
    {
        static_data_insert(&mut self.saved_vsds, mmsi, vsd);
    }

    /// Takes out the static data part kept under an MMSI, if there is
    /// one.
    pub fn pull_vsd(&mut self, mmsi: u32) -> (r: Option<VesselStaticData>)
        ensures
            final(self).static_data() == old(self).static_data().remove(mmsi),
            final(self).fragments() == old(self).fragments(),
            r.is_some() == old(self).static_data().contains_key(mmsi),
            r.is_some() ==> r.unwrap()@ == old(self).static_data()[mmsi],
    {
        static_data_remove(&mut self.saved_vsds, mmsi)
    }

    /// The number of static data parts kept.
    pub fn vsds_count(&self) -> (n: usize)
        ensures
            n == self.static_data().dom().len(),
    {
        static_data_len(&self.saved_vsds)
    }
}

/// What an AIS sentence does, given what is kept before it. A fragment
/// count or number that cannot be read is an error. Else the sentence
/// goes through reassembly; where that completes a payload which a bit
/// sequence can hold, the payload is decoded; else the result is
/// `Incomplete`.
pub open spec fn ais_sentence_step(
    sentence_type: Seq<char>,
    station: Station,
    own_vessel: bool,
    fields: Seq<Seq<char>>,
    fragments_before: Map<Seq<char>, Seq<char>>,
    static_before: Map<u32, VesselStaticDataView>,
    r: Result<ParsedMessage, ParseError>,
    fragments_after: Map<Seq<char>, Seq<char>>,
    static_after: Map<u32, VesselStaticDataView>,
) -> bool {
    if !fragment_fields_valid(fields) {
        &&& fragments_after == fragments_before
        &&& static_after == static_before
        &&& r is Err
        &&& r.unwrap_err() is InvalidSentence
        &&& r.unwrap_err().text() == fragment_error_text(fields)
    } else {
        let step = reassembled(fragments_before, fragment_of(sentence_type, fields));
        &&& fragments_after == step.0
        &&& match step.1 {
            Some(payload) => if 6 * payload.len() <= max_bits() {
                ais_step(
                    armor_bits(payload),
                    station,
                    own_vessel,
                    sentence_type,
                    static_before,
                    r,
                    static_after,
                )
            } else {
                static_after == static_before && r is Ok && r.unwrap() is Incomplete
            },
            None => static_after == static_before && r is Ok && r.unwrap() is Incomplete,
        }
    }
}

/// The message of the error for a sentence type that is not decoded.
pub open spec fn unsupported_type_text(sentence_type: Seq<char>) -> Seq<char> {
    "Unsupported sentence type: "@ + sentence_type
}

/// What a framed sentence does, given what is kept before it: an AIS
/// sentence as `ais_sentence_step` says, a GSV sentence as `gsv_step`
/// says; any other GNSS sentence is decoded from its fields and changes
/// nothing; a sentence of a kind that is not decoded is an error and
/// changes nothing.
pub open spec fn dispatch_step(
    sentence_type: Seq<char>,
    nav_system: NavigationSystem,
    station: Station,
    fields: Seq<Seq<char>>,
    body: Seq<char>,
    fragments_before: Map<Seq<char>, Seq<char>>,
    static_before: Map<u32, VesselStaticDataView>,
    r: Result<ParsedMessage, ParseError>,
    fragments_after: Map<Seq<char>, Seq<char>>,
    static_after: Map<u32, VesselStaticDataView>,
) -> bool {
    match kind_of(sentence_type) {
        SentenceKind::Vdm | SentenceKind::Vdo => ais_sentence_step(
            sentence_type,
            station,
            kind_of(sentence_type) == SentenceKind::Vdo,
            fields,
            fragments_before,
            static_before,
            r,
            fragments_after,
            static_after,
        ),
        SentenceKind::Gga => {
            &&& fragments_after == fragments_before
            &&& static_after == static_before
            &&& gnss::gga::decodes(fields, nav_system, r)
        },
        SentenceKind::Rmc => {
            &&& fragments_after == fragments_before
            &&& static_after == static_before
            &&& gnss::rmc::decodes(fields, nav_system, r)
        },
        SentenceKind::Gns => {
            &&& fragments_after == fragments_before
            &&& static_after == static_before
            &&& gnss::gns::decodes(fields, nav_system, r)
        },
        SentenceKind::Gsa => {
            &&& fragments_after == fragments_before
            &&& static_after == static_before
            &&& gnss::gsa::decodes(fields, nav_system, r)
        },
        SentenceKind::Vtg => {
            &&& fragments_after == fragments_before
            &&& static_after == static_before
            &&& gnss::vtg::decodes(fields, nav_system, r)
        },
        SentenceKind::Gll => {
            &&& fragments_after == fragments_before
            &&& static_after == static_before
            &&& gnss::gll::decodes(fields, nav_system, r)
        },
        SentenceKind::Alm => {
            &&& fragments_after == fragments_before
            &&& static_after == static_before
            &&& gnss::alm::decodes(fields, nav_system, r)
        },
        SentenceKind::Dtm => {
            &&& fragments_after == fragments_before
            &&& static_after == static_before
            &&& gnss::dtm::decodes(fields, nav_system, r)
        },
        SentenceKind::Mss => {
            &&& fragments_after == fragments_before
            &&& static_after == static_before
            &&& gnss::mss::decodes(fields, nav_system, r)
        },
        SentenceKind::Stn => {
            &&& fragments_after == fragments_before
            &&& static_after == static_before
            &&& gnss::stn::decodes(fields, nav_system, r)
        },
        SentenceKind::Vbw => {
            &&& fragments_after == fragments_before
            &&& static_after == static_before
            &&& gnss::vbw::decodes(fields, nav_system, r)
        },
        SentenceKind::Zda => {
            &&& fragments_after == fragments_before
            &&& static_after == static_before
            &&& gnss::zda::decodes(fields, nav_system, r)
        },
        SentenceKind::Dpt => {
            &&& fragments_after == fragments_before
            &&& static_after == static_before
            &&& gnss::dpt::decodes(fields, r)
        },
        SentenceKind::Dbs => {
            &&& fragments_after == fragments_before
            &&& static_after == static_before
            &&& gnss::dbs::decodes(fields, r)
        },
        SentenceKind::Mtw => {
            &&& fragments_after == fragments_before
            &&& static_after == static_before
            &&& gnss::mtw::decodes(fields, r)
        },
        SentenceKind::Vhw => {
            &&& fragments_after == fragments_before
            &&& static_after == static_before
            &&& gnss::vhw::decodes(fields, r)
        },
        SentenceKind::Hdt => {
            &&& fragments_after == fragments_before
            &&& static_after == static_before
            &&& gnss::hdt::decodes(fields, r)
        },
        SentenceKind::Mwv => {
            &&& fragments_after == fragments_before
            &&& static_after == static_before
            &&& gnss::mwv::decodes(fields, r)
        },
        SentenceKind::Gsv => {
            &&& static_after == static_before
            &&& gnss::gsv::gsv_step(fields, body, nav_system, fragments_before, r, fragments_after)
        },
        SentenceKind::Unknown => {
            &&& fragments_after == fragments_before
            &&& static_after == static_before
            &&& r is Err
            &&& r.unwrap_err() is UnsupportedSentenceType
            &&& r.unwrap_err().text() == unsupported_type_text(sentence_type)
        },
    }
}

/// What a line does, given what is kept before it: a line that cannot be
/// framed is an error and changes nothing; one that can is dispatched by
/// its sentence type.
pub open spec fn sentence_step(
    line: Seq<char>,
    fragments_before: Map<Seq<char>, Seq<char>>,
    static_before: Map<u32, VesselStaticDataView>,
    r: Result<ParsedMessage, ParseError>,
    fragments_after: Map<Seq<char>, Seq<char>>,
    static_after: Map<u32, VesselStaticDataView>,
) -> bool {
    if frame_error(line) is Some {
        &&& fragments_after == fragments_before
        &&& static_after == static_before
        &&& r is Err
        &&& is_frame_error(line, r.unwrap_err())
    } else {
        let token = type_token(body_of(line)).unwrap();
        dispatch_step(
            normalized_type(token),
            nav_system_of(token),
            station_of(token),
            split_fields(body_of(line)),
            body_of(line),
            fragments_before,
            static_before,
            r,
            fragments_after,
            static_after,
        )
    }
}

impl NmeaParser {
    /// Decodes an AIS sentence from its fields.
    pub fn parse_ais(
        &mut self,
        sentence_type: &str,
        station: Station,
        own_vessel: bool,
        fields: &Vec<String>,
    ) -> (r: Result<ParsedMessage, ParseError>)
        requires
            old(self).wf(),
            sentence_type.is_ascii(),
            all_ascii(fields@),
        ensures
            final(self).wf(),
            ais_sentence_step(
                sentence_type@,
                station,
                own_vessel,
                views(fields@),
                old(self).fragments(),
                old(self).static_data(),
                r,
                final(self).fragments(),
                final(self).static_data(),
            ),
    {
        let n: usize = fields.len();
        let mut fragment_count: u8 = 0;
        let mut fragment_number: u8 = 0;
        if n > 1 {
            fragment_count = match parse_u8(fields[1].as_str()) {
                Some(c) => c,
                None => {
                    let mut msg: String = String::from_str("Failed to parse fragment count: ");
                    push_text(&mut msg, fields[1].as_str());
                    return Err(ParseError::InvalidSentence(msg));
                },
            };
        }
        if n > 2 {
            fragment_number = match parse_u8(fields[2].as_str()) {
                Some(c) => c,
                None => {
                    let mut msg: String = String::from_str("Failed to parse fragment count: ");
                    push_text(&mut msg, fields[2].as_str());
                    return Err(ParseError::InvalidSentence(msg));
                },
            };
        }
        let message_id: Option<u64> = if n > 3 {
            parse_u64(fields[3].as_str())
        } else {
            None
        };
        let empty: String = String::new();
        let channel: &str = if n > 4 {
            fields[4].as_str()
        } else {
            empty.as_str()
        };
        let payload: String = if n > 5 {
            fields[5].clone()
        } else {
            String::new()
        };
        let whole = self.reassemble(
            sentence_type,
            fragment_count,
            fragment_number,
            message_id,
            channel,
            payload,
        );
        match whole {
            Some(text) => match parse_payload(text.as_str()) {
                Ok(bv) => self.decode_ais(&bv, station, own_vessel, sentence_type),
                Err(_) => Ok(ParsedMessage::Incomplete),
            },
            None => Ok(ParsedMessage::Incomplete),
        }
    }

    /// Decodes one line. A sentence that is part of a message in several
    /// sentences is kept in the parser and answered with `Incomplete`
    /// until the message is whole.
    pub fn parse_sentence(&mut self, sentence: &str) -> (r: Result<ParsedMessage, ParseError>)
        requires
            old(self).wf(),
            sentence.is_ascii(),
        ensures
            final(self).wf(),
            sentence_step(
                sentence@,
                old(self).fragments(),
                old(self).static_data(),
                r,
                final(self).fragments(),
                final(self).static_data(),
            ),
    {
        let framed: Sentence = match frame(sentence) {
            Ok(s) => s,
            Err(e) => {
                return Err(e);
            },
        };
        let sentence_type: &str = framed.sentence_type.as_str();
        match sentence_kind(sentence_type) {
            SentenceKind::Vdm => self.parse_ais(
                sentence_type,
                framed.station,
                false,
                &framed.fields,
            ),
            SentenceKind::Vdo => self.parse_ais(
                sentence_type,
                framed.station,
                true,
                &framed.fields,
            ),
            SentenceKind::Gga => gnss::gga::handle(&framed.fields, framed.nav_system),
            SentenceKind::Rmc => gnss::rmc::handle(&framed.fields, framed.nav_system),
            SentenceKind::Gns => gnss::gns::handle(&framed.fields, framed.nav_system),
            SentenceKind::Gsa => gnss::gsa::handle(&framed.fields, framed.nav_system),
            SentenceKind::Vtg => gnss::vtg::handle(&framed.fields, framed.nav_system),
            SentenceKind::Gll => gnss::gll::handle(&framed.fields, framed.nav_system),
            SentenceKind::Alm => gnss::alm::handle(&framed.fields, framed.nav_system),
            SentenceKind::Dtm => gnss::dtm::handle(&framed.fields, framed.nav_system),
            SentenceKind::Mss => gnss::mss::handle(&framed.fields, framed.nav_system),
            SentenceKind::Stn => gnss::stn::handle(&framed.fields, framed.nav_system),
            SentenceKind::Vbw => gnss::vbw::handle(&framed.fields, framed.nav_system),
            SentenceKind::Zda => gnss::zda::handle(&framed.fields, framed.nav_system),
            SentenceKind::Dpt => gnss::dpt::handle(&framed.fields),
            SentenceKind::Dbs => gnss::dbs::handle(&framed.fields),
            SentenceKind::Mtw => gnss::mtw::handle(&framed.fields),
            SentenceKind::Vhw => gnss::vhw::handle(&framed.fields),
            SentenceKind::Hdt => gnss::hdt::handle(&framed.fields),
            SentenceKind::Mwv => gnss::mwv::handle(&framed.fields),
            SentenceKind::Gsv => gnss::gsv::handle(
                &framed.fields,
                framed.body.as_str(),
                framed.nav_system,
                self,
            ),
            SentenceKind::Unknown => {
                let mut msg: String = String::from_str("Unsupported sentence type: ");
                push_text(&mut msg, sentence_type);
                Err(ParseError::UnsupportedSentenceType(msg))
            },
        }
    }
}

/// A line whose checksum is not the one computed is refused as
/// corrupted, and changes nothing.
pub proof fn lemma_corrupted_is_refused(
    line: Seq<char>,
    fragments_before: Map<Seq<char>, Seq<char>>,
    static_before: Map<u32, VesselStaticDataView>,
    r: Result<ParsedMessage, ParseError>,
    fragments_after: Map<Seq<char>, Seq<char>>,
    static_after: Map<u32, VesselStaticDataView>,
)
    requires
        crate::sentence::corrupted(line),
        sentence_step(line, fragments_before, static_before, r, fragments_after, static_after),
    ensures
        r is Err,
        r.unwrap_err() is CorruptedSentence,
        fragments_after == fragments_before,
        static_after == static_before,
{
}

/// Whether an AIS message type decodes, whatever its bits, to a record
/// of numbers and flags alone.
pub open spec fn plain_message_type(t: nat) -> bool {
    ||| 1 <= t <= 3
    ||| t == 6
    ||| t == 9
    ||| t == 10
    ||| t == 13
    ||| t == 15
    ||| t == 16
    ||| t == 18
    ||| t == 20
    ||| t == 22
    ||| t == 23
    ||| t == 27
}

/// Sending sentence 2 and then sentence 1 of an AIS message in two gives
/// what sending sentence 1 and then sentence 2 gives. The sentence sent
/// first is answered with `Incomplete`; the one sent second decodes the
/// payload of sentence 1 followed by that of sentence 2; the fragments
/// kept are then as they were before. For a message type whose record
/// holds numbers and flags alone, the two results are equal. This holds
/// from a parser that keeps neither sentence of that message.
pub proof fn lemma_fragment_sentences_order(
    sentence_type: Seq<char>,
    station: Station,
    own_vessel: bool,
    fields1: Seq<Seq<char>>,
    fields2: Seq<Seq<char>>,
    fragments: Map<Seq<char>, Seq<char>>,
    statics: Map<u32, VesselStaticDataView>,
    first_12: Result<ParsedMessage, ParseError>,
    fragments_1: Map<Seq<char>, Seq<char>>,
    statics_1: Map<u32, VesselStaticDataView>,
    second_12: Result<ParsedMessage, ParseError>,
    fragments_12: Map<Seq<char>, Seq<char>>,
    statics_12: Map<u32, VesselStaticDataView>,
    first_21: Result<ParsedMessage, ParseError>,
    fragments_2: Map<Seq<char>, Seq<char>>,
    statics_2: Map<u32, VesselStaticDataView>,
    second_21: Result<ParsedMessage, ParseError>,
    fragments_21: Map<Seq<char>, Seq<char>>,
    statics_21: Map<u32, VesselStaticDataView>,
)
    requires
        fragment_fields_valid(fields1),
        fragment_fields_valid(fields2),
        fragment_of(sentence_type, fields1).count == 2,
        fragment_of(sentence_type, fields2).count == 2,
        fragment_of(sentence_type, fields1).number == 1,
        fragment_of(sentence_type, fields2).number == 2,
        fragment_of(sentence_type, fields1).message_id is Some,
        fragment_of(sentence_type, fields1).message_id == fragment_of(
            sentence_type,
            fields2,
        ).message_id,
        fragment_of(sentence_type, fields1).channel == fragment_of(sentence_type, fields2).channel,
        !fragments.contains_key(fragment_of(sentence_type, fields1).key(1)),
        !fragments.contains_key(fragment_of(sentence_type, fields1).key(2)),
        ais_sentence_step(
            sentence_type,
            station,
            own_vessel,
            fields1,
            fragments,
            statics,
            first_12,
            fragments_1,
            statics_1,
        ),
        ais_sentence_step(
            sentence_type,
            station,
            own_vessel,
            fields2,
            fragments_1,
            statics_1,
            second_12,
            fragments_12,
            statics_12,
        ),
        ais_sentence_step(
            sentence_type,
            station,
            own_vessel,
            fields2,
            fragments,
            statics,
            first_21,
            fragments_2,
            statics_2,
        ),
        ais_sentence_step(
            sentence_type,
            station,
            own_vessel,
            fields1,
            fragments_2,
            statics_2,
            second_21,
            fragments_21,
            statics_21,
        ),
    ensures
        first_12 is Ok && first_12.unwrap() is Incomplete,
        first_21 is Ok && first_21.unwrap() is Incomplete,
        fragments_12 == fragments,
        fragments_21 == fragments,
        ({
            let whole = fragment_of(sentence_type, fields1).payload + fragment_of(
                sentence_type,
                fields2,
            ).payload;
            let bits = armor_bits(whole);
            if 6 * whole.len() <= max_bits() {
                &&& ais_step(
                    bits,
                    station,
                    own_vessel,
                    sentence_type,
                    statics,
                    second_12,
                    statics_12,
                )
                &&& ais_step(
                    bits,
                    station,
                    own_vessel,
                    sentence_type,
                    statics,
                    second_21,
                    statics_21,
                )
                &&& plain_message_type(bits_value(bits, 0, 6)) ==> second_12 == second_21
            } else {
                &&& second_12 is Ok && second_12.unwrap() is Incomplete
                &&& second_21 is Ok && second_21.unwrap() is Incomplete
            }
        }),
{
    let f1 = fragment_of(sentence_type, fields1);
    let f2 = fragment_of(sentence_type, fields2);
    assert(f1.key(1) == f2.key(1) && f1.key(2) == f2.key(2));
    lemma_fragment_order(
        fragments,
        sentence_type,
        f1.message_id.unwrap(),
        f1.channel,
        f1.payload,
        f2.payload,
    );
    assert(f1 == (Fragment {
        sentence_type,
        count: 2,
        number: 1,
        message_id: Some(f1.message_id.unwrap()),
        channel: f1.channel,
        payload: f1.payload,
    }));
    assert(f2 == (Fragment {
        sentence_type,
        count: 2,
        number: 2,
        message_id: Some(f1.message_id.unwrap()),
        channel: f1.channel,
        payload: f2.payload,
    }));
}

} // verus!
