//! The concurrent map that holds, for each event type, the identifiers of
//! its subscribed handlers in subscription order.

use dashmap::DashMap;
use std::any::TypeId;
use vstd::prelude::*;

verus! {

#[verifier::external_type_specification]
#[verifier::external_body]
pub struct ExTypeId(TypeId);

#[verifier::external_type_specification]
#[verifier::external_body]
#[verifier::reject_recursive_types(K)]
#[verifier::reject_recursive_types(V)]
#[verifier::reject_recursive_types(S)]
pub struct ExDashMap<K, V, S>(DashMap<K, V, S>);

/// What a handler table holds: for each event type present, the handler
/// identifiers registered under it, in the order they were pushed.
pub uninterp spec fn table_contents(m: DashMap<TypeId, Vec<u64>>) -> Map<TypeId, Seq<u64>>;

/// The table with no event type in it.
pub open spec fn empty_table() -> Map<TypeId, Seq<u64>> {
    Map::empty()
}

/// `DashMap::new`: a map with no entries.
#[verifier::external_body]
pub(crate) fn table_new() -> (m: DashMap<TypeId, Vec<u64>>)
    ensures
        table_contents(m) == empty_table(),
{
    DashMap::new()
}

/// The identifiers listed under `key`, or none when `key` is absent.
pub open spec fn listed(t: Map<TypeId, Seq<u64>>, key: TypeId) -> Seq<u64> {
    if t.contains_key(key) {
        t[key]
    } else {
        Seq::empty()
    }
}

/// `DashMap::entry` followed by `Entry::or_default` and a push onto the
/// vector it hands out: the list under `key` (an empty one where `key` was
/// absent) gets `id` appended, and no other key changes.
#[verifier::external_body]
pub(crate) fn table_push(m: &mut DashMap<TypeId, Vec<u64>>, key: TypeId, id: u64)
    ensures
        table_contents(*final(m)) == table_contents(*old(m)).insert(
            key,
            listed(table_contents(*old(m)), key).push(id),
        ),
{
    m.entry(key).or_default().push(id);
}

/// `DashMap::get`, with the vector found cloned out of the guard: `Some`
/// exactly when `key` is present, holding the list stored under it.
#[verifier::external_body]
pub(crate) fn table_get(m: &DashMap<TypeId, Vec<u64>>, key: &TypeId) -> (r: Option<Vec<u64>>)
    ensures
        r is Some <==> table_contents(*m).contains_key(*key),
        r is Some ==> r->0@ == table_contents(*m)[*key],
{
    match m.get(key) {
        Some(entry) => Some(entry.value().clone()),
        None => None,
    }
}

/// `DashMap::remove`: `key` leaves the map, and what was stored under it
/// comes back (`None` when it was absent).
#[verifier::external_body]
pub(crate) fn table_remove(m: &mut DashMap<TypeId, Vec<u64>>, key: &TypeId) -> (r: Option<Vec<u64>>)
    ensures
        table_contents(*final(m)) == table_contents(*old(m)).remove(*key),
        r is Some <==> table_contents(*old(m)).contains_key(*key),
        r is Some ==> r->0@ == table_contents(*old(m))[*key],
{
    match m.remove(key) {
        Some((_, ids)) => Some(ids),
        None => None,
    }
}

/// `DashMap::clear`: every entry leaves the map.
#[verifier::external_body]
pub(crate) fn table_clear(m: &mut DashMap<TypeId, Vec<u64>>)
    ensures
        table_contents(*final(m)) == empty_table(),
{
    m.clear();
}

} // verus!
