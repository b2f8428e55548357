//! Concurrent hash tables keyed by document id.
//!
//! Two kinds of table are in use: one from ids to a title and a body, one from ids to
//! the place a document has in an index. Both are `dashmap::DashMap`s. A `DashMap` can be
//! changed through a shared reference; here every change goes through `&mut`, so that a
//! table's contents are a function of its value.
use dashmap::DashMap;
use vstd::prelude::*;

verus! {

/// The type `dashmap::DashMap`. Nothing is assumed of its representation.
#[verifier::external_type_specification]
#[verifier::external_body]
#[verifier::reject_recursive_types(K)]
#[verifier::reject_recursive_types(V)]
#[verifier::reject_recursive_types(S)]
pub struct ExDashMap<K, V, S>(DashMap<K, V, S>);

/// A table from ids to a title and a body.
pub type TextTable = DashMap<i32, (String, String)>;

/// The place of a document in an index: the segment that it is in, and its number there.
pub type Place = (u128, u32);

/// A table from ids to a document's place in an index.
pub type PlaceTable = DashMap<i32, (u128, u32)>;

/// The titles and bodies that a table holds, by id.
pub uninterp spec fn texts(table: TextTable) -> Map<i32, (Seq<char>, Seq<char>)>;

/// The places that a table holds, by id.
pub uninterp spec fn places(table: PlaceTable) -> Map<i32, (u128, u32)>;

/// `DashMap::new`: an empty table.
#[verifier::external_body]
pub(crate) fn new_texts() -> (table: TextTable)
    ensures
        texts(table) == (Map::<i32, (Seq<char>, Seq<char>)>::empty()),
{
    DashMap::new()
}

/// `DashMap::len`: the number of entries.
#[verifier::external_body]
pub(crate) fn texts_len(table: &TextTable) -> (n: usize)
    ensures
        n == texts(*table).dom().len(),
{
    table.len()
}

/// `DashMap::insert`: puts the pair under the id, in place of what was there.
#[verifier::external_body]
pub(crate) fn texts_insert(table: &mut TextTable, id: i32, title: String, body: String)
    ensures
        texts(*final(table)) == texts(*old(table)).insert(id, (title@, body@)),
{
    table.insert(id, (title, body));
}

/// `DashMap::remove`: takes out the entry under the id, if there is one.
#[verifier::external_body]
pub(crate) fn texts_remove(table: &mut TextTable, id: i32)
    ensures
        texts(*final(table)) == texts(*old(table)).remove(id),
{
    table.remove(&id);
}

/// `DashMap::get`: a copy of the entry under the id, or `None` where there is none.
#[verifier::external_body]
pub(crate) fn texts_get(table: &TextTable, id: i32) -> (entry: Option<(String, String)>)
    ensures
        entry is Some <==> texts(*table).contains_key(id),
        entry matches Some(pair) ==> (pair.0@, pair.1@) == texts(*table)[id],
{
    table.get(&id).map(|entry| entry.value().clone())
}

/// `DashMap::iter`: a copy of every entry, each once. The order is left open.
#[verifier::external_body]
pub(crate) fn texts_entries(table: &TextTable) -> (entries: Vec<(i32, String, String)>)
    ensures
        forall|i: int| #![trigger entries@[i]] 0 <= i < entries@.len() ==> texts(*table).contains_key(entries@[i].0)
            && texts(*table)[entries@[i].0] == (entries@[i].1@, entries@[i].2@),
        forall|i: int, j: int| 0 <= i < j < entries@.len() ==> entries@[i].0 != entries@[j].0,
        forall|id: i32| #[trigger] texts(*table).contains_key(id) ==> exists|i: int|
            0 <= i < entries@.len() && entries@[i].0 == id,
{
    table.iter().map(|e| (*e.key(), e.value().0.clone(), e.value().1.clone())).collect()
}

/// `DashMap::clone`: a table of its own with the same entries.
#[verifier::external_body]
pub(crate) fn texts_clone(table: &TextTable) -> (copy: TextTable)
    ensures
        texts(copy) == texts(*table),
{
    table.clone()
}

/// `DashMap::new`: an empty table.
#[verifier::external_body]
pub(crate) fn new_places() -> (table: PlaceTable)
    ensures
        places(table) == (Map::<i32, (u128, u32)>::empty()),
{
    DashMap::new()
}

/// `DashMap::insert`: puts the place under the id, in place of what was there.
#[verifier::external_body]
pub(crate) fn places_insert(table: &mut PlaceTable, id: i32, place: (u128, u32))
    ensures
        places(*final(table)) == places(*old(table)).insert(id, place),
{
    table.insert(id, place);
}

/// `DashMap::remove`: takes out the entry under the id and returns its place, or returns
/// `None` where there is none.
#[verifier::external_body]
pub(crate) fn places_remove(table: &mut PlaceTable, id: i32) -> (place: Option<(u128, u32)>)
    ensures
        places(*final(table)) == places(*old(table)).remove(id),
        place is Some <==> places(*old(table)).contains_key(id),
        place matches Some(p) ==> p == places(*old(table))[id],
{
    table.remove(&id).map(|entry| entry.1)
}

/// `DashMap::iter`: a copy of every entry, each once. The order is left open.
#[verifier::external_body]
pub(crate) fn places_entries(table: &PlaceTable) -> (entries: Vec<(i32, (u128, u32))>)
    ensures
        forall|i: int| #![trigger entries@[i]] 0 <= i < entries@.len() ==> places(*table).contains_key(entries@[i].0)
            && places(*table)[entries@[i].0] == entries@[i].1,
        forall|i: int, j: int| 0 <= i < j < entries@.len() ==> entries@[i].0 != entries@[j].0,
        forall|id: i32| #[trigger] places(*table).contains_key(id) ==> exists|i: int|
            0 <= i < entries@.len() && entries@[i].0 == id,
{
    table.iter().map(|e| (*e.key(), *e.value())).collect()
}

} // verus!
