use vstd::prelude::*;

use crate::ast::{ProgV, Program};
use crate::mangling::copy_program;

verus! {

#[verifier::external_type_specification]
#[verifier::external_body]
#[verifier::reject_recursive_types(K)]
#[verifier::reject_recursive_types(V)]
#[verifier::reject_recursive_types(S)]
pub struct ExDashMap<K, V, S>(dashmap::DashMap<K, V, S>);

/// The cache's concrete shape: module tag to flattened program.
pub type ProgramCache = dashmap::DashMap<u64, Program>;

/// What the cache holds: the flattened program stored under each module tag.
pub uninterp spec fn cache_entries(m: ProgramCache) -> Map<u64, ProgV>;

/// The contents of a cache that holds nothing.
pub open spec fn no_entries() -> Map<u64, ProgV> {
    Map::empty()
}

/// Relies on dashmap::DashMap::new: the new map holds no entries.
#[verifier::external_body]
pub(crate) fn cache_new() -> (r: ProgramCache)
    ensures
        cache_entries(r) == no_entries(),
{
    dashmap::DashMap::new()
}

/// Relies on dashmap::DashMap::get: returns the entry stored under the key,
/// if there is one; the returned copy is made by the library's own
/// `copy_program`, which keeps the view.
#[verifier::external_body]
pub(crate) fn cache_get(m: &ProgramCache, k: u64) -> (r: Option<Program>)
    ensures
        (match r {
            Option::Some(p) => cache_entries(*m).dom().contains(k) && p@ == cache_entries(*m)[k],
            Option::None => !cache_entries(*m).dom().contains(k),
        }),
{
    match m.get(&k) {
        Option::Some(g) => Option::Some(copy_program(g.value())),
        Option::None => Option::None,
    }
}

/// Relies on dashmap::DashMap::insert: stores the value under the key,
/// replacing any previous entry; the stored copy is made by the library's
/// own `copy_program`, which keeps the view.
#[verifier::external_body]
pub(crate) fn cache_insert(m: &mut ProgramCache, k: u64, p: &Program)
    ensures
        cache_entries(*final(m)) == cache_entries(*old(m)).insert(k, p@),
{
    m.insert(k, copy_program(p));
}

} // verus!
