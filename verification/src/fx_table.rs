//! Hash tables with the Fx hasher of `rustc_hash`, as maps of their keys.
//!
//! `FxBuildHasher` builds a fresh, unseeded `FxHasher` every time, so equal keys always hash
//! alike; for keys whose `Hash` and `Eq` agree with equality of values (what
//! `obeys_key_model` states, as for the integer types) a table then behaves as a map.
use vstd::prelude::*;

use std::hash::Hash;

use rustc_hash::{FxBuildHasher, FxHashMap};
use vstd::std_specs::hash::obeys_key_model;

verus! {

/// `rustc_hash::FxBuildHasher`, the hasher of the tables; it is carried through opaquely.
#[verifier::external_type_specification]
#[verifier::external_body]
pub struct ExFxBuildHasher(FxBuildHasher);

/// `HashMap::insert`: afterwards `key` maps to `value` and every other entry is unchanged.
#[verifier::external_body]
pub(crate) fn fx_insert<K: Eq + Hash, V>(table: &mut FxHashMap<K, V>, key: K, value: V)
    requires
        obeys_key_model::<K>(),
    ensures
        final(table)@ == old(table)@.insert(key, value),
{
    table.insert(key, value);
}

/// `HashMap::get`: the value stored under `key`, or `None` where there is none.
#[verifier::external_body]
pub(crate) fn fx_get<'a, K: Eq + Hash, V>(table: &'a FxHashMap<K, V>, key: &K) -> (r: Option<
    &'a V,
>)
    requires
        obeys_key_model::<K>(),
    ensures
        table@.contains_key(*key) ==> r == Some(&table@[*key]),
        !table@.contains_key(*key) ==> r is None,
{
    table.get(key)
}

/// `HashMap::contains_key`: whether the table has an entry for `key`.
#[verifier::external_body]
pub(crate) fn fx_contains_key<K: Eq + Hash, V>(table: &FxHashMap<K, V>, key: &K) -> (r: bool)
    requires
        obeys_key_model::<K>(),
    ensures
        r == table@.contains_key(*key),
{
    table.contains_key(key)
}

/// `HashMap::remove`: removes the entry of `key` and hands back its value, or `None` where
/// there was none; every other entry is unchanged.
#[verifier::external_body]
pub(crate) fn fx_remove<K: Eq + Hash, V>(table: &mut FxHashMap<K, V>, key: &K) -> (r: Option<V>)
    requires
        obeys_key_model::<K>(),
    ensures
        final(table)@ == old(table)@.remove(*key),
        old(table)@.contains_key(*key) ==> r == Some(old(table)@[*key]),
        !old(table)@.contains_key(*key) ==> r is None,
{
    table.remove(key)
}

/// `list` holds `table`'s values, one per key, along some ordering of the keys without
/// repeats.
pub open spec fn lists_values<K, V>(list: Seq<V>, table: Map<K, V>) -> bool {
    exists|keys: Seq<K>|
        {
            &&& keys.no_duplicates()
            &&& keys.to_set() == table.dom()
            &&& list.len() == keys.len()
            &&& forall|i: int| 0 <= i < keys.len() ==> #[trigger] list[i] == table[keys[i]]
        }
}

/// `HashMap::values`, collected: every stored value once per key, in the table's own order,
/// which is left unsaid.
#[verifier::external_body]
pub(crate) fn fx_values<'a, K: Eq + Hash, V>(table: &'a FxHashMap<K, V>) -> (r: Vec<&'a V>)
    requires
        obeys_key_model::<K>(),
    ensures
        lists_values(r@.map_values(|v: &V| *v), table@),
{
    table.values().collect()
}

} // verus!
