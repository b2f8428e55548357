//! Laws of the storage in memory.
use crate::models::{Error, SearchDocument};
use crate::storage::memory::MemoryStorage;
use crate::storage::DocumentStorage;
use vstd::prelude::*;

verus! {

/// Adding always succeeds, and what is read under the returned id is the document with the
/// title and the body that were given.
pub proof fn law_added_is_read(
    before: MemoryStorage,
    title: &str,
    body: &str,
    added: Result<i32, Error>,
    after: MemoryStorage,
    read: Result<SearchDocument, Error>,
)
    requires
        exists|s: &mut MemoryStorage|
            *s == before && *final(s) == after && #[trigger] call_ensures(
                <MemoryStorage as DocumentStorage>::add_document,
                (s, title, body),
                added,
            ),
        added is Ok ==> call_ensures(
            <MemoryStorage as DocumentStorage>::get_document,
            (&after, added->Ok_0),
            read,
        ),
    ensures
        added is Ok,
        read is Ok,
        read->Ok_0.id == added->Ok_0,
        read->Ok_0.title@ == title@,
        read->Ok_0.body@ == body@,
{
}

/// Two answers to a reader are alike: the same document, or a failure of the same kind.
pub open spec fn alike(
    one: Result<SearchDocument, Error>,
    other: Result<SearchDocument, Error>,
) -> bool {
    match (one, other) {
        (Ok(a), Ok(b)) => a.id == b.id && a.title@ == b.title@ && a.body@ == b.body@,
        (Err(a), Err(b)) => a == b,
        _ => false,
    }
}

/// Adding a document changes the answer under no id but its own.
pub proof fn law_adding_keeps_other_documents(
    before: MemoryStorage,
    title: &str,
    body: &str,
    added: Result<i32, Error>,
    after: MemoryStorage,
    other: i32,
    read_before: Result<SearchDocument, Error>,
    read_after: Result<SearchDocument, Error>,
)
    requires
        exists|s: &mut MemoryStorage|
            *s == before && *final(s) == after && #[trigger] call_ensures(
                <MemoryStorage as DocumentStorage>::add_document,
                (s, title, body),
                added,
            ),
        added is Ok ==> other != added->Ok_0,
        call_ensures(
            <MemoryStorage as DocumentStorage>::get_document,
            (&before, other),
            read_before,
        ),
        call_ensures(<MemoryStorage as DocumentStorage>::get_document, (&after, other), read_after),
    ensures
        alike(read_before, read_after),
{
}

/// A new storage has no document under any id, and its first document gets the id 1.
pub proof fn law_new_storage_is_empty(
    storage: MemoryStorage,
    id: i32,
    read: Result<SearchDocument, Error>,
    title: &str,
    body: &str,
    added: Result<i32, Error>,
    after: MemoryStorage,
)
    requires
        call_ensures(MemoryStorage::new, (), storage) || call_ensures(
            <MemoryStorage as Default>::default,
            (),
            storage,
        ),
        call_ensures(<MemoryStorage as DocumentStorage>::get_document, (&storage, id), read),
        exists|s: &mut MemoryStorage|
            *s == storage && *final(s) == after && #[trigger] call_ensures(
                <MemoryStorage as DocumentStorage>::add_document,
                (s, title, body),
                added,
            ),
    ensures
        read == Err::<SearchDocument, Error>(Error::DocumentNotFound),
        added == Ok::<i32, Error>(1),
{
}

/// Of two documents added one after the other, the second gets the id above the first one's.
/// Only where the first took the place of another document do both get the same id.
pub proof fn law_ids_count_up(
    first: MemoryStorage,
    title: &str,
    body: &str,
    added: Result<i32, Error>,
    second: MemoryStorage,
    next_title: &str,
    next_body: &str,
    next_added: Result<i32, Error>,
    third: MemoryStorage,
    replaced: Result<SearchDocument, Error>,
)
    requires
        first@.dom().finite(),
        exists|s: &mut MemoryStorage|
            *s == first && *final(s) == second && #[trigger] call_ensures(
                <MemoryStorage as DocumentStorage>::add_document,
                (s, title, body),
                added,
            ),
        exists|s: &mut MemoryStorage|
            *s == second && *final(s) == third && #[trigger] call_ensures(
                <MemoryStorage as DocumentStorage>::add_document,
                (s, next_title, next_body),
                next_added,
            ),
        added is Ok ==> call_ensures(
            <MemoryStorage as DocumentStorage>::get_document,
            (&first, added->Ok_0),
            replaced,
        ),
    ensures
        added is Ok,
        next_added is Ok,
        replaced is Err ==> next_added->Ok_0 == added->Ok_0 + 1,
        replaced is Ok ==> next_added->Ok_0 == added->Ok_0,
{
    assert(second@.dom() =~= first@.dom().insert(added->Ok_0));
}

/// Deleting always succeeds. Afterwards no document is read under the id, and under every
/// other id the answer is what it was.
pub proof fn law_deleted_is_not_read(
    before: MemoryStorage,
    id: i32,
    deleted: Result<(), Error>,
    after: MemoryStorage,
    other: i32,
    read_before: Result<SearchDocument, Error>,
    read_after: Result<SearchDocument, Error>,
)
    requires
        exists|s: &mut MemoryStorage|
            *s == before && *final(s) == after && #[trigger] call_ensures(
                <MemoryStorage as DocumentStorage>::delete_document,
                (s, id),
                deleted,
            ),
        call_ensures(
            <MemoryStorage as DocumentStorage>::get_document,
            (&before, other),
            read_before,
        ),
        call_ensures(<MemoryStorage as DocumentStorage>::get_document, (&after, other), read_after),
    ensures
        deleted is Ok,
        other == id ==> read_after == Err::<SearchDocument, Error>(Error::DocumentNotFound),
        other != id ==> alike(read_before, read_after),
{
}

/// After the deletion of a document that was there, the next document gets an id one lower
/// than it would have got. After that of a document that was not there it gets the same.
pub proof fn law_deleting_gives_an_id_back(
    storage: MemoryStorage,
    id: i32,
    read: Result<SearchDocument, Error>,
    deleted: Result<(), Error>,
    shrunk: MemoryStorage,
    title: &str,
    body: &str,
    added: Result<i32, Error>,
    grown: MemoryStorage,
    added_later: Result<i32, Error>,
    grown_later: MemoryStorage,
)
    requires
        storage@.dom().finite(),
        call_ensures(<MemoryStorage as DocumentStorage>::get_document, (&storage, id), read),
        exists|s: &mut MemoryStorage|
            *s == storage && *final(s) == shrunk && #[trigger] call_ensures(
                <MemoryStorage as DocumentStorage>::delete_document,
                (s, id),
                deleted,
            ),
        exists|s: &mut MemoryStorage|
            *s == storage && *final(s) == grown && #[trigger] call_ensures(
                <MemoryStorage as DocumentStorage>::add_document,
                (s, title, body),
                added,
            ),
        exists|s: &mut MemoryStorage|
            *s == shrunk && *final(s) == grown_later && #[trigger] call_ensures(
                <MemoryStorage as DocumentStorage>::add_document,
                (s, title, body),
                added_later,
            ),
    ensures
        added is Ok,
        added_later is Ok,
        read is Ok ==> added_later->Ok_0 == added->Ok_0 - 1,
        read is Err ==> added_later->Ok_0 == added->Ok_0,
{
    assert(shrunk@.dom() =~= storage@.dom().remove(id));
}

/// A clone answers like the storage that it was made of.
pub proof fn law_clone_answers_alike(
    storage: MemoryStorage,
    copy: MemoryStorage,
    id: i32,
    read: Result<SearchDocument, Error>,
    read_copy: Result<SearchDocument, Error>,
)
    requires
        call_ensures(<MemoryStorage as Clone>::clone, (&storage,), copy),
        call_ensures(<MemoryStorage as DocumentStorage>::get_document, (&storage, id), read),
        call_ensures(<MemoryStorage as DocumentStorage>::get_document, (&copy, id), read_copy),
    ensures
        alike(read, read_copy),
{
}

} // verus!
