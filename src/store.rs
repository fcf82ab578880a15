use vstd::prelude::*;
use dashmap::DashMap;

verus! {

#[verifier::external_type_specification]
#[verifier::external_body]
#[verifier::reject_recursive_types(K)]
#[verifier::reject_recursive_types(V)]
#[verifier::reject_recursive_types(S)]
pub struct ExDashMap<K, V, S>(DashMap<K, V, S>);

/// The key under which a client is tracked: address family and address bits.
pub type ClientKey = (u8, u128);

/// One client's counter and the start of its current counting window (seconds).
#[derive(Clone, Copy, Debug, PartialEq, Eq, Structural)]
pub struct ClientRecord {
    pub count: u32,
    pub window_start: i64,
}

/// The concurrent map that holds every client's record.
pub type RecordMap = DashMap<ClientKey, ClientRecord>;

/// What a record map holds, key by key.
pub uninterp spec fn records_of(m: RecordMap) -> Map<ClientKey, ClientRecord>;

/// The contents of a map that holds no entry.
pub open spec fn no_records() -> Map<ClientKey, ClientRecord> {
    Map::empty()
}

/// Relies on `DashMap::new`: a new map holds no entry.
#[verifier::external_body]
pub(crate) fn map_new() -> (r: RecordMap)
    ensures
        records_of(r) == no_records(),
{
    DashMap::new()
}

/// Relies on `DashMap::get`: the value stored under `k`, if any (copied out of the guard).
#[verifier::external_body]
pub(crate) fn map_get(m: &RecordMap, k: ClientKey) -> (r: Option<ClientRecord>)
    ensures
        r == (if records_of(*m).contains_key(k) {
            Some(records_of(*m)[k])
        } else {
            None
        }),
{
    m.get(&k).map(|e| *e)
}

/// Relies on `DashMap::insert`: afterwards `k` maps to `v`, the other entries unchanged.
#[verifier::external_body]
pub(crate) fn map_insert(m: &mut RecordMap, k: ClientKey, v: ClientRecord)
    ensures
        records_of(*final(m)) == records_of(*old(m)).insert(k, v),
{
    m.insert(k, v);
}

/// Relies on `DashMap::remove`: afterwards `k` has no entry, the other entries unchanged.
#[verifier::external_body]
pub(crate) fn map_remove(m: &mut RecordMap, k: ClientKey)
    ensures
        records_of(*final(m)) == records_of(*old(m)).remove(k),
{
    m.remove(&k);
}

/// Relies on `DashMap::iter`: it visits every entry once, so the keys it yields
/// are exactly the map's keys, each once.
#[verifier::external_body]
pub(crate) fn map_keys(m: &RecordMap) -> (r: Vec<ClientKey>)
    ensures
        r@.no_duplicates(),
        r@.to_set() == records_of(*m).dom(),
{
    m.iter().map(|e| *e.key()).collect()
}

} // verus!
