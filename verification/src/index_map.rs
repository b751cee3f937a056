//! Trusted interface to `indexmap`'s insertion-ordered hash map, used as the
//! id-to-position index of the sensor registry. The contracts state what the
//! crate's documented behaviour of `new`, `get` and `insert` shows about the
//! entries held.

use vstd::prelude::*;

verus! {

#[verifier::external_type_specification]
#[verifier::external_body]
#[verifier::reject_recursive_types(K)]
#[verifier::reject_recursive_types(V)]
#[verifier::reject_recursive_types(S)]
pub struct ExIndexMap<K, V, S>(indexmap::IndexMap<K, V, S>);

/// The key-to-value entries an index map holds.
pub uninterp spec fn entries(m: indexmap::IndexMap<u128, usize>) -> Map<u128, usize>;

/// Relies on `indexmap::IndexMap::new`: the new map holds no entries.
#[verifier::external_body]
pub(crate) fn im_new() -> (m: indexmap::IndexMap<u128, usize>)
    ensures
        entries(m) =~= Map::empty(),
{
    indexmap::IndexMap::new()
}

/// Relies on `indexmap::IndexMap::get`: returns the stored value for the
/// key if one is present, else nothing.
#[verifier::external_body]
pub(crate) fn im_get(m: &indexmap::IndexMap<u128, usize>, k: u128) -> (r: Option<usize>)
    ensures
        r is Some <==> entries(*m).contains_key(k),
        r matches Some(v) ==> entries(*m)[k] == v,
{
    m.get(&k).copied()
}

/// Relies on `indexmap::IndexMap::insert`: updates the value of a present
/// key, returning the older value, and stores an absent key anew, returning
/// nothing.
#[verifier::external_body]
pub(crate) fn im_insert(
    m: &mut indexmap::IndexMap<u128, usize>,
    k: u128,
    v: usize,
) -> (r: Option<usize>)
    ensures
        entries(*final(m)) == entries(*old(m)).insert(k, v),
        r is Some <==> entries(*old(m)).contains_key(k),
        r matches Some(x) ==> entries(*old(m))[k] == x,
{
    m.insert(k, v)
}

} // verus!
