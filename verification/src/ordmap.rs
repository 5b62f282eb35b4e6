//! The ordered name-to-symbol map of a scope.
//!
//! A scope's symbols live in an `indexmap::IndexMap`, an associative
//! container whose iteration order is insertion order.  The map is opaque
//! to the verifier; its contents are named by [`map_entries`], and every
//! operation the crate performs on it goes through a trusted wrapper whose
//! contract states, over that name, what the `indexmap` source shows.

use crate::symbols::Symbol;
use crate::symbols::SymbolView;
use vstd::prelude::*;

verus! {

#[verifier::external_type_specification]
#[verifier::external_body]
#[verifier::reject_recursive_types(K)]
#[verifier::reject_recursive_types(V)]
#[verifier::reject_recursive_types(S)]
pub struct ExIndexMap<K, V, S>(indexmap::IndexMap<K, V, S>);

/// The contents of a symbol map: its key-symbol pairs, in insertion order.
pub uninterp spec fn map_entries(m: indexmap::IndexMap<String, Symbol>) -> Seq<
    (Seq<char>, SymbolView),
>;

/// The index of the entry for `key` in `entries`, or `-1` when no entry
/// carries that key.
pub open spec fn entry_index(entries: Seq<(Seq<char>, SymbolView)>, key: Seq<char>) -> int
    decreases entries.len(),
{
    if entries.len() == 0 {
        -1
    } else if entries[0].0 == key {
        0
    } else {
        let rest = entry_index(entries.drop_first(), key);
        if rest == -1 {
            -1
        } else {
            rest + 1
        }
    }
}

/// The entry index is `-1` or a position in the sequence, and a found
/// entry carries the key looked up.
pub proof fn lemma_entry_index(entries: Seq<(Seq<char>, SymbolView)>, key: Seq<char>)
    ensures
        -1 <= entry_index(entries, key) < entries.len(),
        entry_index(entries, key) >= 0 ==> entries[entry_index(entries, key)].0 == key,
        entry_index(entries, key) == -1 ==> forall|i: int|
            0 <= i < entries.len() ==> entries[i].0 != key,
    decreases entries.len(),
{
    if entries.len() > 0 && entries[0].0 != key {
        lemma_entry_index(entries.drop_first(), key);
        assert forall|i: int| 0 <= i < entries.len() && entry_index(entries, key) == -1 implies entries[i].0
            != key by {
            if i > 0 {
                assert(entries.drop_first()[i - 1] == entries[i]);
            }
        }
    }
}

/// Relies on `indexmap::IndexMap::new`: the new map is empty.
#[verifier::external_body]
pub(crate) fn map_new() -> (r: indexmap::IndexMap<String, Symbol>)
    ensures
        map_entries(r) == Seq::<(Seq<char>, SymbolView)>::empty(),
{
    indexmap::IndexMap::new()
}

/// Relies on `indexmap::IndexMap::len`: the number of key-value pairs.
#[verifier::external_body]
pub(crate) fn map_len(m: &indexmap::IndexMap<String, Symbol>) -> (n: usize)
    ensures
        n == map_entries(*m).len(),
{
    m.len()
}

/// Relies on `indexmap::IndexMap::insert`: a new key is appended last in
/// order; an existing key keeps its place and only its value is updated.
#[verifier::external_body]
pub(crate) fn map_insert(m: &mut indexmap::IndexMap<String, Symbol>, key: String, value: Symbol)
    ensures
        entry_index(map_entries(*old(m)), key@) == -1 ==> map_entries(*final(m)) == map_entries(
            *old(m),
        ).push((key@, value@)),
        entry_index(map_entries(*old(m)), key@) >= 0 ==> map_entries(*final(m)) == map_entries(
            *old(m),
        ).update(entry_index(map_entries(*old(m)), key@), (key@, value@)),
{
    m.insert(key, value);
}

/// Relies on `indexmap::IndexMap::get`: the stored value for `key`, if
/// any entry carries that key.
#[verifier::external_body]
pub(crate) fn map_get<'a>(m: &'a indexmap::IndexMap<String, Symbol>, key: &String) -> (r: Option<
    &'a Symbol,
>)
    ensures
        match r {
            Option::Some(v) => {
                &&& entry_index(map_entries(*m), key@) >= 0
                &&& v@ == map_entries(*m)[entry_index(map_entries(*m), key@)].1
            },
            Option::None => entry_index(map_entries(*m), key@) == -1,
        },
{
    m.get(key)
}

/// Relies on `indexmap::IndexMap::get_index`: the pair at a position in
/// insertion order, for positions below the length.
#[verifier::external_body]
pub(crate) fn map_get_index<'a>(m: &'a indexmap::IndexMap<String, Symbol>, i: usize) -> (r: Option<
    (&'a String, &'a Symbol),
>)
    ensures
        i < map_entries(*m).len() ==> match r {
            Option::Some(kv) => {
                &&& kv.0@ == map_entries(*m)[i as int].0
                &&& kv.1@ == map_entries(*m)[i as int].1
            },
            Option::None => false,
        },
        i >= map_entries(*m).len() ==> r is None,
{
    m.get_index(i)
}

/// Relies on `indexmap::IndexMap::clone`: the clone holds equal pairs in
/// the same order.
#[verifier::external_body]
pub(crate) fn map_clone(m: &indexmap::IndexMap<String, Symbol>) -> (r: indexmap::IndexMap<
    String,
    Symbol,
>)
    ensures
        map_entries(r) == map_entries(*m),
{
    m.clone()
}

} // verus!
