//! The bitmap cache: a thread-safe mapping from handle keys to
//! backend-resident resource tokens, built on `dashmap::DashMap`.
//!
//! The map is keyed by the pair (namespace, id) of the handle and holds the
//! resource token the backend associated with the entry. Entries are never
//! evicted: they live for the render target's lifetime. The map's own
//! sharded locking makes interleaved inserts and lookups safe; this module
//! states its behaviour through trusted contracts over [`cache_entries`],
//! and the verified core is proved against those contracts.

use vstd::prelude::*;

verus! {

#[verifier::external_type_specification]
#[verifier::external_body]
#[verifier::reject_recursive_types(K)]
#[verifier::reject_recursive_types(V)]
#[verifier::reject_recursive_types(S)]
pub struct ExDashMap<K, V, S>(dashmap::DashMap<K, V, S>);

/// The entries a cache map currently holds, keyed by (namespace, id).
pub uninterp spec fn cache_entries(m: dashmap::DashMap<(u64, u64), u64>) -> Map<(u64, u64), u64>;

/// The contents of a cache map that holds nothing.
pub open spec fn cache_empty() -> Map<(u64, u64), u64> {
    Map::empty()
}

/// Relies on dashmap::DashMap::new: creates an empty map.
#[verifier::external_body]
pub(crate) fn cache_new() -> (r: dashmap::DashMap<(u64, u64), u64>)
    ensures
        cache_entries(r) == cache_empty(),
{
    dashmap::DashMap::new()
}

/// Relies on dashmap::DashMap::insert: after the call the key maps to the
/// value, and every other entry is kept.
#[verifier::external_body]
pub(crate) fn cache_insert(
    m: &mut dashmap::DashMap<(u64, u64), u64>,
    namespace: u64,
    id: u64,
    token: u64,
)
    ensures
        cache_entries(*final(m)) == cache_entries(*old(m)).insert((namespace, id), token),
{
    m.insert((namespace, id), token);
}

/// Relies on dashmap::DashMap::get: returns the value the key maps to, or
/// nothing when the key is absent.
#[verifier::external_body]
pub(crate) fn cache_lookup(m: &dashmap::DashMap<(u64, u64), u64>, namespace: u64, id: u64) -> (r:
    Option<u64>)
    ensures
        r == (if cache_entries(*m).dom().contains((namespace, id)) {
            Some(cache_entries(*m)[(namespace, id)])
        } else {
            None::<u64>
        }),
{
    m.get(&(namespace, id)).map(|entry| *entry.value())
}

} // verus!
