//! Documents kept in memory.
use crate::models::{DocumentView, Error, SearchDocument};
use crate::storage::DocumentStorage;
use crate::table::{new_texts, texts_clone, texts_get, texts_insert, texts_len, texts_remove, TextTable};
use vstd::prelude::*;

verus! {

/// A storage that keeps its documents in memory.
///
/// Its view has the title and the body of each document, by id.
pub struct MemoryStorage {
    documents: TextTable,
}

impl View for MemoryStorage {
    type V = Map<i32, (Seq<char>, Seq<char>)>;

    closed spec fn view(&self) -> Map<i32, (Seq<char>, Seq<char>)> {
        crate::table::texts(self.documents)
    }
}

impl Clone for MemoryStorage {
    fn clone(&self) -> (copy: Self)
        ensures
            copy@ == self@,
    {
        MemoryStorage { documents: texts_clone(&self.documents) }
    }
}

impl Default for MemoryStorage {
    fn default() -> (storage: Self)
        ensures
            storage@ == (Map::<i32, (Seq<char>, Seq<char>)>::empty()),
    {
        MemoryStorage { documents: new_texts() }
    }
}

impl MemoryStorage {
    /// A storage without documents.
    pub fn new() -> (storage: Self)
        ensures
            storage@ == (Map::<i32, (Seq<char>, Seq<char>)>::empty()),
    {
        Self::default()
    }
}

impl DocumentStorage for MemoryStorage {
    /// Ids are counted in an `i32`.
    open spec fn has_room(&self) -> bool {
        self@.dom().len() < i32::MAX
    }

    /// The document gets the id one above the number of documents, and takes the place of
    /// whatever had that id. Adding never fails.
    open spec fn adds(
        before: &Self,
        title: Seq<char>,
        body: Seq<char>,
        outcome: Result<i32, Error>,
        after: &Self,
    ) -> bool {
        &&& outcome is Ok
        &&& outcome->Ok_0 == before@.dom().len() + 1
        &&& after@ == before@.insert(outcome->Ok_0, (title, body))
    }

    open spec fn reads(&self, id: i32, outcome: Result<SearchDocument, Error>) -> bool {
        match outcome {
            Ok(doc) => {
                &&& self@.contains_key(id)
                &&& doc@ == DocumentView { id, title: self@[id].0, body: self@[id].1 }
            },
            Err(error) => !self@.contains_key(id) && error == Error::DocumentNotFound,
        }
    }

    /// Deleting never fails, and changes nothing where no document has the id.
    open spec fn deletes(
        before: &Self,
        id: i32,
        outcome: Result<(), Error>,
        after: &Self,
    ) -> bool {
        &&& outcome == Ok::<(), Error>(())
        &&& after@ == before@.remove(id)
    }

    fn add_document(&mut self, title: &str, body: &str) -> (outcome: Result<i32, Error>) {
        let id: i32 = texts_len(&self.documents) as i32 + 1;
        texts_insert(&mut self.documents, id, title.to_owned(), body.to_owned());
        Ok(id)
    }

    fn get_document(&self, id: i32) -> (outcome: Result<SearchDocument, Error>) {
        match texts_get(&self.documents, id) {
            Some((title, body)) => Ok(SearchDocument { id, title, body }),
            None => Err(Error::DocumentNotFound),
        }
    }

    fn delete_document(&mut self, id: i32) -> (outcome: Result<(), Error>) {
        texts_remove(&mut self.documents, id);
        Ok(())
    }
}

/// What is read under the id of a document just added is that document.
pub proof fn law_read_after_add(
    before: MemoryStorage,
    title: Seq<char>,
    body: Seq<char>,
    id: i32,
    after: MemoryStorage,
    read: Result<SearchDocument, Error>,
)
    requires
        MemoryStorage::adds(&before, title, body, Ok(id), &after),
        after.reads(id, read),
    ensures
        read is Ok,
        read->Ok_0@ == (DocumentView { id, title, body }),
{
}

/// Adding a document changes nothing under any id but its own.
pub proof fn law_add_keeps_others(
    before: MemoryStorage,
    title: Seq<char>,
    body: Seq<char>,
    id: i32,
    after: MemoryStorage,
    other: i32,
    read: Result<SearchDocument, Error>,
)
    requires
        MemoryStorage::adds(&before, title, body, Ok(id), &after),
        other != id,
    ensures
        after.reads(other, read) <==> before.reads(other, read),
{
}

/// A document that was deleted is not found.
pub proof fn law_read_after_delete(
    before: MemoryStorage,
    id: i32,
    outcome: Result<(), Error>,
    after: MemoryStorage,
    read: Result<SearchDocument, Error>,
)
    requires
        MemoryStorage::deletes(&before, id, outcome, &after),
        after.reads(id, read),
    ensures
        read == Err::<SearchDocument, Error>(Error::DocumentNotFound),
{
}

/// Deleting a document changes nothing under any id but its own.
pub proof fn law_delete_keeps_others(
    before: MemoryStorage,
    id: i32,
    outcome: Result<(), Error>,
    after: MemoryStorage,
    other: i32,
    read: Result<SearchDocument, Error>,
)
    requires
        MemoryStorage::deletes(&before, id, outcome, &after),
        other != id,
    ensures
        after.reads(other, read) <==> before.reads(other, read),
{
}

/// Deleting a document twice is the same as deleting it once.
pub proof fn law_delete_twice(
    first: MemoryStorage,
    id: i32,
    second: MemoryStorage,
    third: MemoryStorage,
)
    requires
        MemoryStorage::deletes(&first, id, Ok(()), &second),
        MemoryStorage::deletes(&second, id, Ok(()), &third),
    ensures
        third@ == second@,
{
}

/// Ids are positive in a new storage and stay so, whatever is added or deleted. So the only
/// storage that has no room is the one that holds `i32::MAX` documents.
pub proof fn law_ids_positive(before: MemoryStorage, after: MemoryStorage)
    ensures
        before@ == Map::<i32, (Seq<char>, Seq<char>)>::empty() ==> crate::ids::numbered(before@)
            && crate::ids::dense(before@),
        crate::ids::numbered(before@) ==> {
            &&& forall|title: Seq<char>, body: Seq<char>, outcome: Result<i32, Error>|
                MemoryStorage::adds(&before, title, body, outcome, &after) ==> crate::ids::numbered(after@)
            &&& forall|id: i32, outcome: Result<(), Error>|
                MemoryStorage::deletes(&before, id, outcome, &after) ==> crate::ids::numbered(after@)
            &&& before.has_room() <==> before@.dom().len() != i32::MAX
        },
{
    if crate::ids::numbered(before@) {
        crate::ids::lemma_numbered_bound(before@);
    }
}

/// A document that is added takes the place of the one that has its id, or is one document
/// more where none has it.
pub proof fn law_add_grows_or_replaces(
    before: MemoryStorage,
    title: Seq<char>,
    body: Seq<char>,
    id: i32,
    after: MemoryStorage,
)
    requires
        crate::ids::numbered(before@),
        MemoryStorage::adds(&before, title, body, Ok(id), &after),
    ensures
        after@.dom().len() == before@.dom().len() + if before@.contains_key(id) {
            0nat
        } else {
            1
        },
{
    assert(after@.dom() == before@.dom().insert(id));
}

/// While the ids run from 1 without a gap, a new document gets an id that no document has,
/// and leaves no gap. (After a deletion in the middle it may take the id of a document that
/// is still there.)
pub proof fn law_new_id_is_unused(
    before: MemoryStorage,
    title: Seq<char>,
    body: Seq<char>,
    id: i32,
    after: MemoryStorage,
)
    requires
        crate::ids::dense(before@),
        MemoryStorage::adds(&before, title, body, Ok(id), &after),
    ensures
        !before@.contains_key(id),
        crate::ids::dense(after@),
        after@.dom().len() == before@.dom().len() + 1,
{
    crate::ids::lemma_dense_insert(before@, id, (title, body));
}

/// Deleting the newest document leaves no gap in the ids.
pub proof fn law_delete_newest_leaves_no_gap(
    before: MemoryStorage,
    id: i32,
    outcome: Result<(), Error>,
    after: MemoryStorage,
)
    requires
        crate::ids::dense(before@),
        before@.dom().len() > 0,
        id == before@.dom().len(),
        MemoryStorage::deletes(&before, id, outcome, &after),
    ensures
        crate::ids::dense(after@),
{
    crate::ids::lemma_dense_remove_newest(before@, id);
}

} // verus!
