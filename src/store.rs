//! The key/value store: a `chashmap::CHashMap` from key to (value, expiry),
//! seen by the proofs through the map it holds.
use vstd::prelude::*;
use crate::model::StoreModel;
use chashmap::CHashMap;

verus! {

#[verifier::external_type_specification]
#[verifier::external_body]
#[verifier::reject_recursive_types(K)]
#[verifier::reject_recursive_types(V)]
pub struct ExCHashMap<K, V>(CHashMap<K, V>);

/// The map that a store holds: each key to its value and expiry.
pub uninterp spec fn store_contents(m: CHashMap<String, (String, u128)>) -> StoreModel;

/// Whether the map's table holds no bucket marked removed. A lookup of a
/// missing key scans for an empty bucket and panics if there is none; the
/// load factor keeps one free in such a table.
pub uninterp spec fn store_is_compact(m: CHashMap<String, (String, u128)>) -> bool;

/// Relies on `CHashMap::new`: a new map holds no entry.
#[verifier::external_body]
pub(crate) fn store_new() -> (r: CHashMap<String, (String, u128)>)
    ensures
        store_contents(r) == StoreModel::empty(),
        store_is_compact(r),
{
    CHashMap::new()
}

/// Relies on `CHashMap::get`: the entry under `key`, if any (copied out of
/// the read guard). Only a table with a free bucket can answer for a missing
/// key without panicking.
#[verifier::external_body]
pub(crate) fn store_get(m: &CHashMap<String, (String, u128)>, key: &String) -> (r: Option<(String, u128)>)
    requires
        store_is_compact(*m),
    ensures
        r.is_some() == store_contents(*m).contains_key(key@),
        r.is_some() ==> r.unwrap().0@ == store_contents(*m)[key@].0
            && r.unwrap().1 == store_contents(*m)[key@].1,
{
    m.get(key).map(|guard| (*guard).clone())
}

/// Relies on `CHashMap::insert`: the entry under `key` is replaced, and the
/// value that was there is handed back. It fills a free bucket or the key's
/// own, and grows the table past the load factor, so it marks none removed.
#[verifier::external_body]
pub(crate) fn store_insert(m: &mut CHashMap<String, (String, u128)>, key: String, value: String, expiry: u128) -> (r: Option<String>)
    ensures
        store_contents(*final(m)) == store_contents(*old(m)).insert(key@, (value@, expiry)),
        r.is_some() == store_contents(*old(m)).contains_key(key@),
        r.is_some() ==> r.unwrap()@ == store_contents(*old(m))[key@].0,
        store_is_compact(*old(m)) ==> store_is_compact(*final(m)),
{
    m.insert(key, (value, expiry)).map(|entry| entry.0)
}

/// Relies on `CHashMap::remove`: the entry under `key` is taken out and its
/// bucket marked removed. The scan for a present key ends at its own bucket.
#[verifier::external_body]
pub(crate) fn store_remove(m: &mut CHashMap<String, (String, u128)>, key: &String)
    requires
        store_contents(*old(m)).contains_key(key@),
    ensures
        store_contents(*final(m)) == store_contents(*old(m)).remove(key@),
{
    m.remove(key);
}

/// Relies on `CHashMap::shrink_to_fit`: the table is rebuilt from the live
/// entries alone, at four buckets per entry (at least eight).
#[verifier::external_body]
pub(crate) fn store_compact(m: &mut CHashMap<String, (String, u128)>)
    ensures
        store_contents(*final(m)) == store_contents(*old(m)),
        store_is_compact(*final(m)),
{
    m.shrink_to_fit();
}

/// Relies on `CHashMap::len`: the number of entries.
#[verifier::external_body]
pub(crate) fn store_len(m: &CHashMap<String, (String, u128)>) -> (r: usize)
    ensures
        r as int == store_contents(*m).dom().len(),
{
    m.len()
}

} // verus!
