//! Trusted view of crossbeam-skiplist's `SkipMap`, the lock-free concurrent
//! map that the lock-free strategies keep their registries in. Every
//! operation works through `&self`, so concurrent callers may change the
//! map's contents between any two calls; accordingly no wrapper here states
//! anything about those contents, and each strategy's verified logic must
//! hold for whatever a lookup hands back.

use vstd::prelude::*;

use crossbeam_skiplist::SkipMap;
use crossbeam_skiplist::map::Entry;

use crate::ClientKey;

verus! {

#[verifier::external_type_specification]
#[verifier::external_body]
#[verifier::reject_recursive_types(K)]
#[verifier::reject_recursive_types(V)]
pub struct ExSkipMap<K, V>(SkipMap<K, V>);

#[verifier::external_type_specification]
#[verifier::external_body]
#[verifier::reject_recursive_types(K)]
#[verifier::reject_recursive_types(V)]
pub struct ExEntry<'a, K, V>(Entry<'a, K, V>);

/// Relies on `SkipMap::new`: a new, empty map.
#[verifier::external_body]
pub(crate) fn skipmap_new<V>() -> SkipMap<ClientKey, V> {
    SkipMap::new()
}

/// Relies on `SkipMap::get`: the entry currently stored for `key`, or `None`
/// while the map holds no entry for it. Another caller may insert or replace
/// the value at any moment, so nothing further holds of the result.
#[verifier::external_body]
pub(crate) fn skipmap_get<'a, V>(
    m: &'a SkipMap<ClientKey, V>,
    key: ClientKey,
) -> Option<Entry<'a, ClientKey, V>> {
    m.get(&key)
}

/// Relies on `SkipMap::get_or_insert`: the entry for `key`, inserting `value`
/// first when the key is absent. Concurrent first-touch inserts of one new
/// key race safely and leave a single entry for it.
#[verifier::external_body]
pub(crate) fn skipmap_get_or_insert<'a, V>(
    m: &'a SkipMap<ClientKey, V>,
    key: ClientKey,
    value: V,
) -> Entry<'a, ClientKey, V> {
    m.get_or_insert(key, value)
}

/// Relies on `SkipMap::insert`: stores `value` under `key`, replacing
/// whatever entry is present.
#[verifier::external_body]
pub(crate) fn skipmap_insert<V: Send + 'static>(
    m: &SkipMap<ClientKey, V>,
    key: ClientKey,
    value: V,
) {
    m.insert(key, value);
}

/// Relies on `Entry::value`: a reference to the value the entry points at.
/// An entry pins its value: the reference stays valid while the entry lives,
/// even if the map moves on.
#[verifier::external_body]
pub(crate) fn entry_value<'a, 'b, V>(e: &'b Entry<'a, ClientKey, V>) -> &'b V {
    e.value()
}

} // verus!
