//! The hash tables of the ledger.
//!
//! Accounts, transaction histories and dispute sets live in std's `HashMap`
//! and `HashSet`, hashed with the `fnv` crate's `FnvHasher`. vstd describes
//! what those tables hold (their views, `table@`) and what an empty one is,
//! but it describes their methods only for std's own hasher. This module
//! states, without proof, what each method used here does on a table hashed
//! with FNV; each contract says of the method what vstd says of it for std's
//! own hasher.
//!
//! All of it rests on things that no proof in this crate establishes: that
//! std's tables behave as documented; that `FnvHasher` hashes equal keys
//! equally, which it does because every hasher starts from the same offset
//! basis and folds its input bytes in order; and that the keys hash and
//! compare as their values do, which is what `obeys_key_model` asks for and
//! what vstd grants for the integer types.
use fnv::FnvHashMap;
use fnv::FnvHashSet;
use fnv::FnvHasher;
use std::collections::hash_map::Entry;
use std::hash::BuildHasherDefault;
use std::hash::Hash;
use vstd::prelude::*;
use vstd::std_specs::hash::obeys_key_model;
use vstd::std_specs::hash::EntrySpecFns;

verus! {

/// `fnv::FnvHasher`, the hasher's state; nothing is said of what is inside.
#[verifier::external_type_specification]
#[verifier::external_body]
pub struct ExFnvHasher(FnvHasher);

/// `std::hash::BuildHasherDefault`, which makes each hasher with `Default`.
#[verifier::external_type_specification]
#[verifier::external_body]
#[verifier::reject_recursive_types(H)]
pub struct ExBuildHasherDefault<H>(BuildHasherDefault<H>);

/// `HashMap::get`: a reference to the value stored under `key`, or `None`
/// when the table has no such key.
#[verifier::external_body]
pub(crate) fn map_get<'a, K: Hash + Eq, V>(table: &'a FnvHashMap<K, V>, key: &K) -> (found: Option<
    &'a V,
>)
    requires
        obeys_key_model::<K>(),
    ensures
        found == (if table@.contains_key(*key) {
            Some(&table@[*key])
        } else {
            None
        }),
{
    table.get(key)
}

/// `HashMap::contains_key`: whether the table has a value under `key`.
#[verifier::external_body]
pub(crate) fn map_contains_key<K: Hash + Eq, V>(table: &FnvHashMap<K, V>, key: &K) -> (present:
    bool)
    requires
        obeys_key_model::<K>(),
    ensures
        present == table@.contains_key(*key),
{
    table.contains_key(key)
}

/// `HashMap::insert`: afterwards `key` maps to `value` and every other key
/// to what it mapped to before. Returns the value that `key` had, if any.
#[verifier::external_body]
pub(crate) fn map_insert<K: Hash + Eq, V>(table: &mut FnvHashMap<K, V>, key: K, value: V) -> (before:
    Option<V>)
    requires
        obeys_key_model::<K>(),
    ensures
        final(table)@ == old(table)@.insert(key, value),
        before == (if old(table)@.contains_key(key) {
            Some(old(table)@[key])
        } else {
            None
        }),
{
    table.insert(key, value)
}

/// `HashMap::entry`: the place of `key` in the table, for reading and
/// changing in one step. The entry starts with the value that `key` has, if
/// any; when the entry is given up, the table holds under `key` what the
/// entry then holds, and is otherwise as before.
#[verifier::external_body]
pub(crate) fn map_entry<'a, K: Hash + Eq, V>(table: &'a mut FnvHashMap<K, V>, key: K) -> (entry:
    Entry<'a, K, V>)
    requires
        obeys_key_model::<K>(),
    ensures
        entry.spec_key() == key,
        entry.value() == old(table)@.get(key),
        final(table)@ == (match entry.final_value() {
            Some(value) => old(table)@.insert(key, value),
            None => old(table)@.remove(key),
        }),
{
    table.entry(key)
}

/// `HashMap::keys`, collected: every key of the table once, in the order in
/// which the table happens to hand them out.
#[verifier::external_body]
pub(crate) fn map_keys<K: Hash + Eq + Copy, V>(table: &FnvHashMap<K, V>) -> (keys: Vec<K>)
    requires
        obeys_key_model::<K>(),
    ensures
        keys@.no_duplicates(),
        keys@.to_set() == table@.dom(),
{
    table.keys().copied().collect()
}

/// `HashSet::contains`: whether `key` is in the set.
#[verifier::external_body]
pub(crate) fn set_contains<K: Hash + Eq>(set: &FnvHashSet<K>, key: &K) -> (present: bool)
    requires
        obeys_key_model::<K>(),
    ensures
        present == set@.contains(*key),
{
    set.contains(key)
}

/// `HashSet::insert`: afterwards the set holds `key` and all it held before.
/// Returns whether `key` is new to it.
#[verifier::external_body]
pub(crate) fn set_insert<K: Hash + Eq>(set: &mut FnvHashSet<K>, key: K) -> (added: bool)
    requires
        obeys_key_model::<K>(),
    ensures
        final(set)@ == old(set)@.insert(key),
        added == !old(set)@.contains(key),
{
    set.insert(key)
}

/// `HashSet::remove`: afterwards the set holds all it held before but `key`.
/// Returns whether `key` was in it.
#[verifier::external_body]
pub(crate) fn set_remove<K: Hash + Eq>(set: &mut FnvHashSet<K>, key: &K) -> (removed: bool)
    requires
        obeys_key_model::<K>(),
    ensures
        final(set)@ == old(set)@.remove(*key),
        removed == old(set)@.contains(*key),
{
    set.remove(key)
}

} // verus!
