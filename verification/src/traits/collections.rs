//! The operations for the maps and sets of the standard library.
//!
//! A map or a set is taken apart into a list of its entries, the entries are
//! converted one by one, and a new collection is made of the results. Taking
//! apart and making are the standard library's own `FromIterator`. What the
//! new collection holds is up to the `Hash`, `Eq` and `Ord` of the converted
//! keys: two keys may become one. So the implementations promise nothing of
//! the collection that they return. What holds of the converted entries is
//! stated where a list is converted: every entry is what the operation
//! promises for the entry at the same place.

use crate::traits::sequences::list_into_owned;
use crate::traits::{IntoOwned, ToBorrowed, ToOwned};
use std::collections::{BTreeMap, BTreeSet, HashMap, HashSet};
use std::hash::{BuildHasher, Hash};
use vstd::prelude::*;

verus! {

// Lists of entries and of items

/// Whether every entry of `new` is what `to_borrowed` promises for the
/// entry of `old` at the same place, key for key and value for value.
pub open spec fn entries_borrowed_as<'a, K: ToBorrowed<'a>, V: ToBorrowed<'a>>(
    old: Seq<(&'a K, &'a V)>,
    new: Seq<(K, V)>,
) -> bool {
    &&& new.len() == old.len()
    &&& forall|i: int|
        0 <= i < old.len() ==> old[i].0.borrowed_as((#[trigger] new[i]).0) && old[i].1.borrowed_as(
            new[i].1,
        )
}

/// Whether every entry of `new` is what `to_owned` promises for the entry
/// of `old` at the same place, key for key and value for value.
pub open spec fn entries_owned_as<K: ToOwned, V: ToOwned>(
    old: Seq<(&K, &V)>,
    new: Seq<(K::Owned, V::Owned)>,
) -> bool {
    &&& new.len() == old.len()
    &&& forall|i: int|
        0 <= i < old.len() ==> old[i].0.owned_as((#[trigger] new[i]).0) && old[i].1.owned_as(
            new[i].1,
        )
}

/// Whether every item of `new` is what `to_borrowed` promises for the item
/// of `old` at the same place.
pub open spec fn items_borrowed_as<'a, T: ToBorrowed<'a>>(old: Seq<&'a T>, new: Seq<T>) -> bool {
    &&& new.len() == old.len()
    &&& forall|i: int| 0 <= i < old.len() ==> old[i].borrowed_as(#[trigger] new[i])
}

/// Whether every item of `new` is what `to_owned` promises for the item of
/// `old` at the same place.
pub open spec fn items_owned_as<T: ToOwned>(old: Seq<&T>, new: Seq<T::Owned>) -> bool {
    &&& new.len() == old.len()
    &&& forall|i: int| 0 <= i < old.len() ==> old[i].owned_as(#[trigger] new[i])
}

/// Borrows every entry of a list of borrowed entries, in their order.
pub fn entries_to_borrowed<'a, K: ToBorrowed<'a>, V: ToBorrowed<'a>>(
    entries: &Vec<(&'a K, &'a V)>,
) -> (result: Vec<(K, V)>)
    ensures
        entries_borrowed_as(entries@, result@),
{
    let mut result: Vec<(K, V)> = Vec::new();
    let mut i: usize = 0;
    while i < entries.len()
        invariant
            i <= entries.len(),
            result@.len() == i,
            forall|j: int|
                0 <= j < i ==> entries@[j].0.borrowed_as((#[trigger] result@[j]).0)
                    && entries@[j].1.borrowed_as(result@[j].1),
        decreases entries.len() - i,
    {
        let (key, value) = entries[i];
        result.push((ToBorrowed::to_borrowed(key), ToBorrowed::to_borrowed(value)));
        i += 1;
    }
    result
}

/// Converts every entry of a list of borrowed entries to its owned form, in
/// their order.
pub fn entries_to_owned<K: ToOwned, V: ToOwned>(entries: &Vec<(&K, &V)>) -> (result: Vec<
    (K::Owned, V::Owned),
>)
    ensures
        entries_owned_as(entries@, result@),
{
    let mut result: Vec<(K::Owned, V::Owned)> = Vec::new();
    let mut i: usize = 0;
    while i < entries.len()
        invariant
            i <= entries.len(),
            result@.len() == i,
            forall|j: int|
                0 <= j < i ==> entries@[j].0.owned_as((#[trigger] result@[j]).0)
                    && entries@[j].1.owned_as(result@[j].1),
        decreases entries.len() - i,
    {
        let (key, value) = entries[i];
        result.push((ToOwned::to_owned(key), ToOwned::to_owned(value)));
        i += 1;
    }
    result
}

/// Borrows every item of a list of borrowed items, in their order.
pub fn items_to_borrowed<'a, T: ToBorrowed<'a>>(items: &Vec<&'a T>) -> (result: Vec<T>)
    ensures
        items_borrowed_as(items@, result@),
{
    let mut result: Vec<T> = Vec::new();
    let mut i: usize = 0;
    while i < items.len()
        invariant
            i <= items.len(),
            result@.len() == i,
            forall|j: int| 0 <= j < i ==> items@[j].borrowed_as(#[trigger] result@[j]),
        decreases items.len() - i,
    {
        result.push(ToBorrowed::to_borrowed(items[i]));
        i += 1;
    }
    result
}

/// Converts every item of a list of borrowed items to its owned form, in
/// their order.
pub fn items_to_owned<T: ToOwned>(items: &Vec<&T>) -> (result: Vec<T::Owned>)
    ensures
        items_owned_as(items@, result@),
{
    let mut result: Vec<T::Owned> = Vec::new();
    let mut i: usize = 0;
    while i < items.len()
        invariant
            i <= items.len(),
            result@.len() == i,
            forall|j: int| 0 <= j < i ==> items@[j].owned_as(#[trigger] result@[j]),
        decreases items.len() - i,
    {
        result.push(ToOwned::to_owned(items[i]));
        i += 1;
    }
    result
}

// HashMap

/// Calls `FromIterator` for `Vec` on a borrowed `HashMap`, which lists the
/// entries of the map. Order and number are the map's affair, so nothing is
/// claimed of the list.
#[verifier::external_body]
fn hash_map_entries<'a, K, V, S>(map: &'a HashMap<K, V, S>) -> Vec<(&'a K, &'a V)> {
    Vec::from_iter(map)
}

/// Calls `FromIterator` for `Vec` on a `HashMap`, which moves the entries of
/// the map into a list. Nothing is claimed of the list.
#[verifier::external_body]
fn hash_map_into_entries<K, V, S>(map: HashMap<K, V, S>) -> Vec<(K, V)> {
    Vec::from_iter(map)
}

/// Calls `FromIterator` for `HashMap` on a list of entries, which makes a map
/// of them. Which entry stays where two keys are equal is the map's affair,
/// so nothing is claimed of the map.
#[verifier::external_body]
fn hash_map_from_entries<K: Eq + Hash, V, S: BuildHasher + Default>(
    entries: Vec<(K, V)>,
) -> HashMap<K, V, S> {
    HashMap::from_iter(entries)
}

impl<'a, K, V, S> ToBorrowed<'a> for HashMap<K, V, S> where
    K: ToBorrowed<'a> + Eq + Hash,
    V: ToBorrowed<'a>,
    S: BuildHasher + Default, {
    fn to_borrowed(&'a self) -> Self {
        hash_map_from_entries(entries_to_borrowed(&hash_map_entries(self)))
    }
}

impl<K, V, S> ToOwned for HashMap<K, V, S> where
    K: ToOwned,
    <K as ToOwned>::Owned: Eq + Hash,
    V: ToOwned,
    S: BuildHasher + Default, {
    type Owned = HashMap<K::Owned, V::Owned, S>;

    fn to_owned(&self) -> Self::Owned {
        hash_map_from_entries(entries_to_owned(&hash_map_entries(self)))
    }
}

impl<K, V, S> IntoOwned for HashMap<K, V, S> where
    K: IntoOwned,
    <K as IntoOwned>::Owned: Eq + Hash,
    V: IntoOwned,
    S: BuildHasher + Default, {
    type Owned = HashMap<K::Owned, V::Owned, S>;

    fn into_owned(self) -> Self::Owned {
        hash_map_from_entries(list_into_owned(hash_map_into_entries(self)))
    }
}

// HashSet

/// Calls `FromIterator` for `Vec` on a borrowed `HashSet`, which lists the
/// items of the set. Order and number are the set's affair, so nothing is
/// claimed of the list.
#[verifier::external_body]
fn hash_set_items<'a, T, S>(set: &'a HashSet<T, S>) -> Vec<&'a T> {
    Vec::from_iter(set)
}

/// Calls `FromIterator` for `Vec` on a `HashSet`, which moves the items of
/// the set into a list. Nothing is claimed of the list.
#[verifier::external_body]
fn hash_set_into_items<T, S>(set: HashSet<T, S>) -> Vec<T> {
    Vec::from_iter(set)
}

/// Calls `FromIterator` for `HashSet` on a list of items, which makes a set
/// of them. Which item stays where two are equal is the set's affair, so
/// nothing is claimed of the set.
#[verifier::external_body]
fn hash_set_from_items<T: Eq + Hash, S: BuildHasher + Default>(
    items: Vec<T>,
) -> HashSet<T, S> {
    HashSet::from_iter(items)
}

impl<'a, T, S> ToBorrowed<'a> for HashSet<T, S> where
    T: ToBorrowed<'a> + Eq + Hash,
    S: BuildHasher + Default, {
    fn to_borrowed(&'a self) -> Self {
        hash_set_from_items(items_to_borrowed(&hash_set_items(self)))
    }
}

impl<T, S> ToOwned for HashSet<T, S> where
    T: ToOwned,
    <T as ToOwned>::Owned: Eq + Hash,
    S: BuildHasher + Default, {
    type Owned = HashSet<T::Owned, S>;

    fn to_owned(&self) -> Self::Owned {
        hash_set_from_items(items_to_owned(&hash_set_items(self)))
    }
}

impl<T, S> IntoOwned for HashSet<T, S> where
    T: IntoOwned,
    <T as IntoOwned>::Owned: Eq + Hash,
    S: BuildHasher + Default, {
    type Owned = HashSet<T::Owned, S>;

    fn into_owned(self) -> Self::Owned {
        hash_set_from_items(list_into_owned(hash_set_into_items(self)))
    }
}

// BTreeMap

/// Calls `FromIterator` for `Vec` on a borrowed `BTreeMap`, which lists the
/// entries of the map. Order and number are the map's affair, so nothing is
/// claimed of the list.
#[verifier::external_body]
fn tree_map_entries<'a, K, V>(map: &'a BTreeMap<K, V>) -> Vec<(&'a K, &'a V)> {
    Vec::from_iter(map)
}

/// Calls `FromIterator` for `Vec` on a `BTreeMap`, which moves the entries of
/// the map into a list. Nothing is claimed of the list.
#[verifier::external_body]
fn tree_map_into_entries<K, V>(map: BTreeMap<K, V>) -> Vec<(K, V)> {
    Vec::from_iter(map)
}

/// Calls `FromIterator` for `BTreeMap` on a list of entries, which makes a map
/// of them. Which entry stays where two keys are equal is the map's affair,
/// so nothing is claimed of the map.
#[verifier::external_body]
fn tree_map_from_entries<K: Ord, V>(
    entries: Vec<(K, V)>,
) -> BTreeMap<K, V> {
    BTreeMap::from_iter(entries)
}

impl<'a, K, V> ToBorrowed<'a> for BTreeMap<K, V> where
    K: ToBorrowed<'a> + Ord,
    V: ToBorrowed<'a>,
 {
    fn to_borrowed(&'a self) -> Self {
        tree_map_from_entries(entries_to_borrowed(&tree_map_entries(self)))
    }
}

impl<K, V> ToOwned for BTreeMap<K, V> where
    K: ToOwned,
    <K as ToOwned>::Owned: Ord,
    V: ToOwned,
 {
    type Owned = BTreeMap<K::Owned, V::Owned>;

    fn to_owned(&self) -> Self::Owned {
        tree_map_from_entries(entries_to_owned(&tree_map_entries(self)))
    }
}

impl<K, V> IntoOwned for BTreeMap<K, V> where
    K: IntoOwned,
    <K as IntoOwned>::Owned: Ord,
    V: IntoOwned,
 {
    type Owned = BTreeMap<K::Owned, V::Owned>;

    fn into_owned(self) -> Self::Owned {
        tree_map_from_entries(list_into_owned(tree_map_into_entries(self)))
    }
}

// BTreeSet

/// Calls `FromIterator` for `Vec` on a borrowed `BTreeSet`, which lists the
/// items of the set. Order and number are the set's affair, so nothing is
/// claimed of the list.
#[verifier::external_body]
fn tree_set_items<'a, T>(set: &'a BTreeSet<T>) -> Vec<&'a T> {
    Vec::from_iter(set)
}

/// Calls `FromIterator` for `Vec` on a `BTreeSet`, which moves the items of
/// the set into a list. Nothing is claimed of the list.
#[verifier::external_body]
fn tree_set_into_items<T>(set: BTreeSet<T>) -> Vec<T> {
    Vec::from_iter(set)
}

/// Calls `FromIterator` for `BTreeSet` on a list of items, which makes a set
/// of them. Which item stays where two are equal is the set's affair, so
/// nothing is claimed of the set.
#[verifier::external_body]
fn tree_set_from_items<T: Ord>(
    items: Vec<T>,
) -> BTreeSet<T> {
    BTreeSet::from_iter(items)
}

impl<'a, T> ToBorrowed<'a> for BTreeSet<T> where
    T: ToBorrowed<'a> + Ord,
 {
    fn to_borrowed(&'a self) -> Self {
        tree_set_from_items(items_to_borrowed(&tree_set_items(self)))
    }
}

impl<T> ToOwned for BTreeSet<T> where
    T: ToOwned,
    <T as ToOwned>::Owned: Ord,
 {
    type Owned = BTreeSet<T::Owned>;

    fn to_owned(&self) -> Self::Owned {
        tree_set_from_items(items_to_owned(&tree_set_items(self)))
    }
}

impl<T> IntoOwned for BTreeSet<T> where
    T: IntoOwned,
    <T as IntoOwned>::Owned: Ord,
 {
    type Owned = BTreeSet<T::Owned>;

    fn into_owned(self) -> Self::Owned {
        tree_set_from_items(list_into_owned(tree_set_into_items(self)))
    }
}

} // verus!
