//! Hash tables of the `ahash` crate, as the rest of the library sees them.
//!
//! Nothing in this file is proved. Each table type is opaque to the verifier;
//! what a table holds is given a name (`held_since`, `members`, `slots`,
//! `texts`, `places`, `combos`), and
//! every function below states, over those names, what the corresponding
//! method of `ahash::AHashMap` / `ahash::AHashSet` (thin covers over the
//! standard `HashMap` / `HashSet`) is documented to do. The tables are keyed
//! by `u64`, but for the sets and the index of strings, which are told
//! apart by their characters, and for the index of combinations, which is
//! keyed by lists of numbers.

use ahash::AHashMap;
use ahash::AHashSet;
use std::time::Instant;
use vstd::prelude::*;

verus! {

/// `ahash::AHashMap`, carried as an opaque value.
#[verifier::external_type_specification]
#[verifier::external_body]
#[verifier::reject_recursive_types(K)]
#[verifier::reject_recursive_types(V)]
#[verifier::reject_recursive_types(S)]
pub struct ExAHashMap<K, V, S>(ahash::AHashMap<K, V, S>);

/// `ahash::AHashSet`, carried as an opaque value.
#[verifier::external_type_specification]
#[verifier::external_body]
#[verifier::reject_recursive_types(T)]
#[verifier::reject_recursive_types(S)]
pub struct ExAHashSet<T, S>(ahash::AHashSet<T, S>);

/// `ahash::RandomState`, the hasher builder that both tables default to.
#[verifier::external_type_specification]
#[verifier::external_body]
pub struct ExRandomState(ahash::RandomState);

/// The key-to-instant pairs that a table holds.
pub uninterp spec fn held_since(table: AHashMap<u64, Instant>) -> Map<u64, Instant>;

/// The keys that a set holds.
pub uninterp spec fn members(set: AHashSet<u64>) -> Set<u64>;

/// The key-to-position pairs that an index table holds.
pub uninterp spec fn slots(table: AHashMap<u64, usize>) -> Map<u64, usize>;

/// The strings that a set holds, each as its sequence of characters.
pub uninterp spec fn texts(set: AHashSet<String>) -> Set<Seq<char>>;

/// The string-to-position pairs that an index of strings holds, each
/// string as its sequence of characters.
pub uninterp spec fn places(table: AHashMap<String, usize>) -> Map<Seq<char>, usize>;

/// The list-to-position pairs that an index of combinations holds.
pub uninterp spec fn combos(table: AHashMap<Vec<u64>, usize>) -> Map<Seq<u64>, usize>;

/// `AHashMap::new`: a table that holds nothing.
#[verifier::external_body]
pub(crate) fn held_new() -> (table: AHashMap<u64, Instant>)
    ensures
        held_since(table) =~= Map::empty(),
{
    AHashMap::new()
}

/// `HashMap::contains_key` through `AHashMap`: whether the key has an entry.
#[verifier::external_body]
pub(crate) fn held_contains(table: &AHashMap<u64, Instant>, key: u64) -> (found: bool)
    ensures
        found == held_since(*table).dom().contains(key),
{
    table.contains_key(&key)
}

/// `AHashMap::get`: a copy of the value stored under the key, if there is one.
#[verifier::external_body]
pub(crate) fn held_get(table: &AHashMap<u64, Instant>, key: u64) -> (found: Option<Instant>)
    ensures
        found == if held_since(*table).dom().contains(key) {
            Some(held_since(*table)[key])
        } else {
            None
        },
{
    table.get(&key).copied()
}

/// `AHashMap::insert`: the key maps to the new value afterwards, all other
/// entries stay, and the value that the key had before is handed back.
#[verifier::external_body]
pub(crate) fn held_insert(table: &mut AHashMap<u64, Instant>, key: u64, value: Instant) -> (previous: Option<Instant>)
    ensures
        held_since(*final(table)) == held_since(*old(table)).insert(key, value),
        previous == if held_since(*old(table)).dom().contains(key) {
            Some(held_since(*old(table))[key])
        } else {
            None
        },
{
    table.insert(key, value)
}

/// `AHashMap::remove`: the key has no entry afterwards, all other entries
/// stay, and the value that the key had before is handed back.
#[verifier::external_body]
pub(crate) fn held_remove(table: &mut AHashMap<u64, Instant>, key: u64) -> (previous: Option<Instant>)
    ensures
        held_since(*final(table)) == held_since(*old(table)).remove(key),
        previous == if held_since(*old(table)).dom().contains(key) {
            Some(held_since(*old(table))[key])
        } else {
            None
        },
{
    table.remove(&key)
}

/// `HashMap::clear` through `AHashMap`: no entry is left.
#[verifier::external_body]
pub(crate) fn held_clear(table: &mut AHashMap<u64, Instant>)
    ensures
        held_since(*final(table)) =~= Map::empty(),
{
    table.clear()
}

/// `HashMap::keys` through `AHashMap`, collected: every key once, in an
/// order that the table does not promise.
#[verifier::external_body]
pub(crate) fn held_keys(table: &AHashMap<u64, Instant>) -> (keys: Vec<u64>)
    ensures
        keys@.no_duplicates(),
        keys@.to_set() == held_since(*table).dom(),
{
    table.keys().copied().collect()
}

/// `AHashSet::new`: a set that holds nothing.
#[verifier::external_body]
pub(crate) fn members_new() -> (set: AHashSet<u64>)
    ensures
        members(set) == Set::<u64>::empty(),
{
    AHashSet::new()
}

/// `HashSet::contains` through `AHashSet`: whether the key is in the set.
#[verifier::external_body]
pub(crate) fn members_contains(set: &AHashSet<u64>, key: u64) -> (found: bool)
    ensures
        found == members(*set).contains(key),
{
    set.contains(&key)
}

/// `HashSet::insert` through `AHashSet`: the key is in the set afterwards;
/// the answer tells whether it was new.
#[verifier::external_body]
pub(crate) fn members_insert(set: &mut AHashSet<u64>, key: u64) -> (added: bool)
    ensures
        members(*final(set)) == members(*old(set)).insert(key),
        added == !members(*old(set)).contains(key),
{
    set.insert(key)
}

/// `HashSet::remove` through `AHashSet`: the key is not in the set
/// afterwards; the answer tells whether it was there.
#[verifier::external_body]
pub(crate) fn members_remove(set: &mut AHashSet<u64>, key: u64) -> (removed: bool)
    ensures
        members(*final(set)) == members(*old(set)).remove(key),
        removed == members(*old(set)).contains(key),
{
    set.remove(&key)
}

/// `HashSet::clear` through `AHashSet`: no key is left.
#[verifier::external_body]
pub(crate) fn members_clear(set: &mut AHashSet<u64>)
    ensures
        members(*final(set)) == Set::<u64>::empty(),
{
    set.clear()
}

/// `HashSet::iter` through `AHashSet`, collected: every key once, in an
/// order that the set does not promise.
#[verifier::external_body]
pub(crate) fn members_list(set: &AHashSet<u64>) -> (keys: Vec<u64>)
    ensures
        keys@.no_duplicates(),
        keys@.to_set() == members(*set),
{
    set.iter().copied().collect()
}

/// `AHashMap::new`: an index table that holds nothing.
#[verifier::external_body]
pub(crate) fn slots_new() -> (table: AHashMap<u64, usize>)
    ensures
        slots(table) =~= Map::empty(),
{
    AHashMap::new()
}

/// `AHashMap::get`: a copy of the position stored under the key, if there is
/// one.
#[verifier::external_body]
pub(crate) fn slots_get(table: &AHashMap<u64, usize>, key: u64) -> (found: Option<usize>)
    ensures
        found == if slots(*table).dom().contains(key) {
            Some(slots(*table)[key])
        } else {
            None
        },
{
    table.get(&key).copied()
}

/// `AHashMap::insert`: the key maps to the new position afterwards, all
/// other entries stay, and the position that the key had before is handed
/// back.
#[verifier::external_body]
pub(crate) fn slots_insert(table: &mut AHashMap<u64, usize>, key: u64, position: usize) -> (previous: Option<usize>)
    ensures
        slots(*final(table)) == slots(*old(table)).insert(key, position),
        previous == if slots(*old(table)).dom().contains(key) {
            Some(slots(*old(table))[key])
        } else {
            None
        },
{
    table.insert(key, position)
}

/// `AHashMap::remove`: the key has no entry afterwards, all other entries
/// stay, and the position that the key had before is handed back.
#[verifier::external_body]
pub(crate) fn slots_remove(table: &mut AHashMap<u64, usize>, key: u64) -> (previous: Option<usize>)
    ensures
        slots(*final(table)) == slots(*old(table)).remove(key),
        previous == if slots(*old(table)).dom().contains(key) {
            Some(slots(*old(table))[key])
        } else {
            None
        },
{
    table.remove(&key)
}

/// `HashMap::clear` through `AHashMap`: no entry is left.
#[verifier::external_body]
pub(crate) fn slots_clear(table: &mut AHashMap<u64, usize>)
    ensures
        slots(*final(table)) =~= Map::empty(),
{
    table.clear()
}

/// `AHashSet::new`: a set of strings that holds nothing.
#[verifier::external_body]
pub(crate) fn texts_new() -> (set: AHashSet<String>)
    ensures
        texts(set) == Set::<Seq<char>>::empty(),
{
    AHashSet::new()
}

/// `HashSet::insert` through `AHashSet`: the string is in the set
/// afterwards; the answer tells whether it was new.
#[verifier::external_body]
pub(crate) fn texts_insert(set: &mut AHashSet<String>, text: String) -> (added: bool)
    ensures
        texts(*final(set)) == texts(*old(set)).insert(text@),
        added == !texts(*old(set)).contains(text@),
{
    set.insert(text)
}

/// `HashSet::clear` through `AHashSet`: no string is left.
#[verifier::external_body]
pub(crate) fn texts_clear(set: &mut AHashSet<String>)
    ensures
        texts(*final(set)) == Set::<Seq<char>>::empty(),
{
    set.clear()
}

/// `HashSet::is_empty` through `AHashSet`: whether the set holds nothing.
#[verifier::external_body]
pub(crate) fn texts_is_empty(set: &AHashSet<String>) -> (none: bool)
    ensures
        none == (texts(*set) == Set::<Seq<char>>::empty()),
{
    set.is_empty()
}

/// `HashSet::iter` through `AHashSet`, cloned and collected: every string
/// once, in an order that the set does not promise.
#[verifier::external_body]
pub(crate) fn texts_list(set: &AHashSet<String>) -> (list: Vec<String>)
    ensures
        list@.map_values(|text: String| text@).no_duplicates(),
        list@.map_values(|text: String| text@).to_set() == texts(*set),
{
    set.iter().cloned().collect()
}

/// `AHashMap::new`: an index of strings that holds nothing.
#[verifier::external_body]
pub(crate) fn places_new() -> (table: AHashMap<String, usize>)
    ensures
        places(table) =~= Map::empty(),
{
    AHashMap::new()
}

/// `AHashMap::get`: a copy of the position stored under the string, if
/// there is one.
#[verifier::external_body]
pub(crate) fn places_get(table: &AHashMap<String, usize>, text: &String) -> (found: Option<usize>)
    ensures
        found == if places(*table).dom().contains(text@) {
            Some(places(*table)[text@])
        } else {
            None
        },
{
    table.get(text).copied()
}

/// `AHashMap::insert`: the string maps to the new position afterwards, all
/// other entries stay, and the position that the string had before is
/// handed back.
#[verifier::external_body]
pub(crate) fn places_insert(table: &mut AHashMap<String, usize>, text: String, position: usize) -> (previous: Option<usize>)
    ensures
        places(*final(table)) == places(*old(table)).insert(text@, position),
        previous == if places(*old(table)).dom().contains(text@) {
            Some(places(*old(table))[text@])
        } else {
            None
        },
{
    table.insert(text, position)
}

/// `AHashMap::new`: an index of combinations that holds nothing.
#[verifier::external_body]
pub(crate) fn combos_new() -> (table: AHashMap<Vec<u64>, usize>)
    ensures
        combos(table) =~= Map::empty(),
{
    AHashMap::new()
}

/// `AHashMap::get`: a copy of the position stored under the list, if there
/// is one.
#[verifier::external_body]
pub(crate) fn combos_get(table: &AHashMap<Vec<u64>, usize>, key: &Vec<u64>) -> (found: Option<usize>)
    ensures
        found == if combos(*table).dom().contains(key@) {
            Some(combos(*table)[key@])
        } else {
            None
        },
{
    table.get(key).copied()
}

/// `AHashMap::insert`: the list maps to the new position afterwards, all
/// other entries stay, and the position that the list had before is handed
/// back.
#[verifier::external_body]
pub(crate) fn combos_insert(table: &mut AHashMap<Vec<u64>, usize>, key: Vec<u64>, position: usize) -> (previous: Option<usize>)
    ensures
        combos(*final(table)) == combos(*old(table)).insert(key@, position),
        previous == if combos(*old(table)).dom().contains(key@) {
            Some(combos(*old(table))[key@])
        } else {
            None
        },
{
    table.insert(key, position)
}

/// `AHashMap::clone`: a second index that holds what the first holds.
#[verifier::external_body]
pub(crate) fn combos_clone(table: &AHashMap<Vec<u64>, usize>) -> (copy: AHashMap<Vec<u64>, usize>)
    ensures
        combos(copy) == combos(*table),
{
    table.clone()
}

/// `AHashMap::clone`: a second table that holds what the first holds.
#[verifier::external_body]
pub(crate) fn held_clone(table: &AHashMap<u64, Instant>) -> (copy: AHashMap<u64, Instant>)
    ensures
        held_since(copy) == held_since(*table),
{
    table.clone()
}

/// `AHashSet::clone`: a second set that holds what the first holds.
#[verifier::external_body]
pub(crate) fn members_clone(set: &AHashSet<u64>) -> (copy: AHashSet<u64>)
    ensures
        members(copy) == members(*set),
{
    set.clone()
}

/// `AHashMap::clone`: a second index that holds what the first holds.
#[verifier::external_body]
pub(crate) fn slots_clone(table: &AHashMap<u64, usize>) -> (copy: AHashMap<u64, usize>)
    ensures
        slots(copy) == slots(*table),
{
    table.clone()
}

/// `AHashSet::clone`: a second set of strings that holds what the first
/// holds.
#[verifier::external_body]
pub(crate) fn texts_clone(set: &AHashSet<String>) -> (copy: AHashSet<String>)
    ensures
        texts(copy) == texts(*set),
{
    set.clone()
}

} // verus!
