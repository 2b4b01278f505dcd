//! The two keyed stores that hold the parts of messages in several
//! sentences until their partners arrive, kept in `hashbrown` maps. What
//! the maps do is taken on trust from the `hashbrown` crate: the functions
//! marked `external_body` state it for each of the two maps, and the
//! protocols are proved against what they state.

use crate::ais::{VesselStaticData, VesselStaticDataView};
use hashbrown::HashMap;
use vstd::prelude::*;

verus! {

/// Payloads of sentences that wait for their partners, by key.
#[verifier::external_body]
pub struct FragmentStore {
    map: HashMap<String, String>,
}

/// Static data reports that wait for their other part, by MMSI.
#[verifier::external_body]
pub struct StaticDataStore {
    map: HashMap<u32, VesselStaticData>,
}

/// What a fragment store holds: the text kept under each key.
pub uninterp spec fn fragment_map(s: &FragmentStore) -> Map<Seq<char>, Seq<char>>;

/// What a static data store holds: the report kept under each MMSI.
pub uninterp spec fn static_data_map(s: &StaticDataStore) -> Map<u32, VesselStaticDataView>;

/// The fragment map that holds nothing.
pub open spec fn no_fragments() -> Map<Seq<char>, Seq<char>> {
    Map::empty()
}

/// The static data map that holds nothing.
pub open spec fn no_static_data() -> Map<u32, VesselStaticDataView> {
    Map::empty()
}

/// `HashMap::new`: a map that holds nothing.
#[verifier::external_body]
pub(crate) fn fragments_new() -> (s: FragmentStore)
    ensures
        fragment_map(&s) == no_fragments(),
{
    FragmentStore { map: HashMap::new() }
}

/// `HashMap::insert`: afterwards the key maps to the value, whether it
/// was present or not; other keys are as before.
#[verifier::external_body]
pub(crate) fn fragments_insert(s: &mut FragmentStore, key: String, value: String)
    ensures
        fragment_map(final(s)) == fragment_map(old(s)).insert(key@, value@),
{
    s.map.insert(key, value);
}

/// `HashMap::remove`: takes the key out and returns what it mapped to,
/// or `None` where it was absent; other keys are as before.
#[verifier::external_body]
pub(crate) fn fragments_remove(s: &mut FragmentStore, key: &str) -> (r: Option<String>)
    ensures
        fragment_map(final(s)) == fragment_map(old(s)).remove(key@),
        r.is_some() == fragment_map(old(s)).contains_key(key@),
        r.is_some() ==> r.unwrap()@ == fragment_map(old(s))[key@],
{
    s.map.remove(key)
}

/// `HashMap::contains_key`: whether the key is present.
#[verifier::external_body]
pub(crate) fn fragments_contains(s: &FragmentStore, key: &str) -> (r: bool)
    ensures
        r == fragment_map(s).contains_key(key@),
{
    s.map.contains_key(key)
}

/// `HashMap::len`: the number of keys present.
#[verifier::external_body]
pub(crate) fn fragments_len(s: &FragmentStore) -> (n: usize)
    ensures
        n == fragment_map(s).dom().len(),
{
    s.map.len()
}

/// `HashMap::clear`: afterwards the map holds nothing.
#[verifier::external_body]
pub(crate) fn fragments_clear(s: &mut FragmentStore)
    ensures
        fragment_map(final(s)) == no_fragments(),
{
    s.map.clear();
}

/// `HashMap::new`: a map that holds nothing.
#[verifier::external_body]
pub(crate) fn static_data_new() -> (s: StaticDataStore)
    ensures
        static_data_map(&s) == no_static_data(),
{
    StaticDataStore { map: HashMap::new() }
}

/// `HashMap::insert`: afterwards the key maps to the value, whether it
/// was present or not; other keys are as before.
#[verifier::external_body]
pub(crate) fn static_data_insert(s: &mut StaticDataStore, mmsi: u32, vsd: VesselStaticData)
    ensures
        static_data_map(final(s)) == static_data_map(old(s)).insert(mmsi, vsd@),
{
    s.map.insert(mmsi, vsd);
}

/// `HashMap::remove`: takes the key out and returns what it mapped to,
/// or `None` where it was absent; other keys are as before.
#[verifier::external_body]
pub(crate) fn static_data_remove(
    s: &mut StaticDataStore,
    mmsi: u32,
) -> (r: Option<VesselStaticData>)
    ensures
        static_data_map(final(s)) == static_data_map(old(s)).remove(mmsi),
        r.is_some() == static_data_map(old(s)).contains_key(mmsi),
        r.is_some() ==> r.unwrap()@ == static_data_map(old(s))[mmsi],
{
    s.map.remove(&mmsi)
}

/// `HashMap::len`: the number of keys present.
#[verifier::external_body]
pub(crate) fn static_data_len(s: &StaticDataStore) -> (n: usize)
    ensures
        n == static_data_map(s).dom().len(),
{
    s.map.len()
}

/// `HashMap::clear`: afterwards the map holds nothing.
#[verifier::external_body]
pub(crate) fn static_data_clear(s: &mut StaticDataStore)
    ensures
        static_data_map(final(s)) == no_static_data(),
{
    s.map.clear();
}

} // verus!
