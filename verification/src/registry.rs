//! Index of initialized sessions, keyed by application id.
//!
//! The root controller files each session's slot number under its
//! profile's application id, in an insertion-ordered map of the
//! `indexmap` crate. Only the lookup/insert surface the controller uses
//! is specified here, over the content map [`index_entries`].

use vstd::prelude::*;

verus! {

/// `indexmap`'s ordered map, declared so it can appear in signatures and
/// fields. Opaque to verification; the wrappers below carry its
/// contracts.
#[verifier::external_type_specification]
#[verifier::external_body]
#[verifier::reject_recursive_types(K)]
#[verifier::reject_recursive_types(V)]
#[verifier::reject_recursive_types(S)]
pub struct ExIndexMap<K, V, S>(indexmap::IndexMap<K, V, S>);

/// The map the root controller files session slots in.
pub type SessionIndex = indexmap::IndexMap<String, usize>;

/// What a session index holds: the slot number filed under the content
/// of each key string.
pub uninterp spec fn index_entries(m: SessionIndex) -> Map<Seq<char>, usize>;

/// The content of a session index with no entries.
pub open spec fn empty_index() -> Map<Seq<char>, usize> {
    Map::empty()
}

/// Relies on `indexmap::IndexMap::new`: a fresh map with no entries.
#[verifier::external_body]
pub(crate) fn registry_new() -> (m: SessionIndex)
    ensures
        index_entries(m) == empty_index(),
{
    indexmap::IndexMap::new()
}

/// Relies on `indexmap::IndexMap::get`: the value filed under a key
/// equal to `k`, or `None` when there is none. String equality is
/// content equality, so the content map decides.
#[verifier::external_body]
pub(crate) fn registry_get(m: &SessionIndex, k: &String) -> (r: Option<usize>)
    ensures
        match r {
            Option::Some(v) => index_entries(*m).contains_key(k@) && index_entries(*m)[k@] == v,
            Option::None => !index_entries(*m).contains_key(k@),
        },
{
    m.get(k).copied()
}

/// Relies on `indexmap::IndexMap::insert`: files `v` under `k`,
/// replacing and returning the previous value under an equal key if one
/// was present.
#[verifier::external_body]
pub(crate) fn registry_insert(m: &mut SessionIndex, k: String, v: usize) -> (r: Option<usize>)
    ensures
        index_entries(*final(m)) == index_entries(*old(m)).insert(k@, v),
        match r {
            Option::Some(prev) => index_entries(*old(m)).contains_key(k@) && index_entries(
                *old(m),
            )[k@] == prev,
            Option::None => !index_entries(*old(m)).contains_key(k@),
        },
{
    m.insert(k, v)
}

} // verus!
