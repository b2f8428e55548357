//! Laws of the engine.
use crate::engine::{SearchEngine, EVENT_CAPACITY};
use crate::memory_engine::MemoryEngine;
use crate::models::{DocumentEvent, Error, SearchDocument};
use crate::search::memory::MemoryIndex;
use crate::search::{Score, SearchIndex};
use crate::storage::memory::MemoryStorage;
use crate::storage::DocumentStorage;
use tokio::sync::broadcast::{Receiver, Sender};
use tokio_stream::wrappers::BroadcastStream;
use vstd::prelude::*;

verus! {

/// A document that was added is announced once, behind all that was announced before, as
/// created: with the returned id, and with the title and the body that were given. Where
/// adding failed, nothing is announced. What an engine answers is what its storage and its
/// index answered, in this turn.
pub proof fn law_what_is_added_is_announced<S: DocumentStorage, I: SearchIndex>(
    before: SearchEngine<S, I>,
    title: &str,
    body: &str,
    added: Result<i32, Error>,
    after: SearchEngine<S, I>,
)
    requires
        exists|e: &mut SearchEngine<S, I>|
            *e == before && *final(e) == after && #[trigger] call_ensures(
                SearchEngine::<S, I>::add_document,
                (e, title, body),
                added,
            ),
    ensures
        added matches Ok(id) ==> {
            let n = before.events().len() as int;
            &&& after.events().len() == n + 1
            &&& after.events().take(n) == before.events()
            &&& after.events()[n].value matches DocumentEvent::Created(doc)
            &&& doc.id == id
            &&& doc.title@ == title@
            &&& doc.body@ == body@
        },
        added is Err ==> after.events() == before.events(),
        added matches Ok(id) ==> S::adds(
            &before.storage(),
            title@,
            body@,
            Ok(id),
            &after.storage(),
        ) && I::adds(&before.index(), title@, body@, Ok(()), &after.index()),
        added matches Err(error) ==> {
            ||| S::adds(&before.storage(), title@, body@, Err(error), &after.storage())
                && after.index() == before.index()
            ||| I::adds(&before.index(), title@, body@, Err(error), &after.index()) && exists|
                id: i32,
            |
                S::adds(&before.storage(), title@, body@, Ok(id), &after.storage())
        },
{
    if added is Ok {
        assert(after.events().take(before.events().len() as int) =~= before.events());
    }
}

/// A document that was deleted is announced once, behind all that was announced before, as
/// deleted. Where deleting failed, nothing is announced, and where the index refuses, the
/// storage is not touched.
pub proof fn law_what_is_deleted_is_announced<S: DocumentStorage, I: SearchIndex>(
    before: SearchEngine<S, I>,
    id: i32,
    deleted: Result<(), Error>,
    after: SearchEngine<S, I>,
)
    requires
        exists|e: &mut SearchEngine<S, I>|
            *e == before && *final(e) == after && #[trigger] call_ensures(
                SearchEngine::<S, I>::delete_document,
                (e, id),
                deleted,
            ),
    ensures
        deleted is Ok ==> {
            let n = before.events().len() as int;
            &&& after.events().len() == n + 1
            &&& after.events().take(n) == before.events()
            &&& after.events()[n].value == DocumentEvent::Deleted(id)
        },
        deleted is Err ==> after.events() == before.events(),
        deleted is Ok ==> I::deletes(&before.index(), id, Ok(()), &after.index()) && S::deletes(
            &before.storage(),
            id,
            Ok(()),
            &after.storage(),
        ),
        deleted matches Err(error) ==> {
            ||| I::deletes(&before.index(), id, Err(error), &after.index()) && after.storage()
                == before.storage()
            ||| I::deletes(&before.index(), id, Ok(()), &after.index()) && S::deletes(
                &before.storage(),
                id,
                Err(error),
                &after.storage(),
            )
        },
{
    if deleted is Ok {
        assert(after.events().take(before.events().len() as int) =~= before.events());
    }
}

/// The documents that a search returns are those that the storage reads under the ids that
/// the index found, in the order in which it found them. Only what the storage cannot read
/// is left out. A search fails exactly where the index does, with its failure. To read a
/// document is to ask the storage.
pub proof fn law_search_reads_what_was_found<S: DocumentStorage, I: SearchIndex>(
    engine: SearchEngine<S, I>,
    query: &str,
    outcome: Result<Vec<SearchDocument>, Error>,
    id: i32,
    read: Result<SearchDocument, Error>,
)
    requires
        call_ensures(SearchEngine::<S, I>::search, (&engine, query), outcome),
        call_ensures(SearchEngine::<S, I>::get_document, (&engine, id), read),
    ensures
        outcome matches Ok(documents) ==> exists|hits: Vec<(i32, Score)>, origin: Seq<int>|
            engine.index().finds(query@, Ok(hits)) && #[trigger] read_in_order(
                engine.storage(),
                hits@,
                documents@,
                origin,
            ),
        outcome matches Err(error) ==> engine.index().finds(query@, Err(error)),
        engine.storage().reads(id, read),
{
    if let Ok(documents) = outcome {
        let (hits, answers) = choose|
            hits: Vec<(i32, Score)>,
            answers: Seq<Result<SearchDocument, Error>>,
        |
            {
                &&& engine.index().finds(query@, Ok(hits))
                &&& #[trigger] crate::engine::all_read(engine.storage(), hits@, answers)
                &&& documents@ == crate::engine::documents_read(answers)
            };
        let origin = lemma_origin(answers);
        assert forall|k: int| 0 <= k < hits@.len() && !#[trigger] origin.contains(k) implies exists|
            error: Error,
        |
            engine.storage().reads(hits@[k].0, Err(error)) by {
            assert(answers[k] is Err);
            assert(engine.storage().reads(hits@[k].0, answers[k]));
            assert(answers[k] == Err::<SearchDocument, Error>(answers[k]->Err_0));
            assert(engine.storage().reads(hits@[k].0, Err(answers[k]->Err_0)));
        }
        assert(read_in_order(engine.storage(), hits@, documents@, origin));
    }
}

/// The documents are what the storage reads under the ids of the hits at `origin`, in order;
/// it cannot read the others.
pub open spec fn read_in_order<S: DocumentStorage>(
    storage: S,
    hits: Seq<(i32, Score)>,
    documents: Seq<SearchDocument>,
    origin: Seq<int>,
) -> bool {
    &&& origin.len() == documents.len()
    &&& forall|i: int, j: int| 0 <= i < j < origin.len() ==> origin[i] < origin[j]
    &&& forall|i: int|
        0 <= i < origin.len() ==> 0 <= #[trigger] origin[i] < hits.len() && storage.reads(
            hits[origin[i]].0,
            Ok(documents[i]),
        )
    &&& forall|k: int|
        0 <= k < hits.len() && !#[trigger] origin.contains(k) ==> exists|error: Error|
            storage.reads(hits[k].0, Err(error))
}

proof fn lemma_origin(answers: Seq<Result<SearchDocument, Error>>) -> (origin: Seq<int>)
    ensures
        origin.len() == crate::engine::documents_read(answers).len(),
        forall|i: int, j: int| 0 <= i < j < origin.len() ==> origin[i] < origin[j],
        forall|i: int|
            0 <= i < origin.len() ==> 0 <= #[trigger] origin[i] < answers.len()
                && answers[origin[i]] == Ok::<SearchDocument, Error>(
                crate::engine::documents_read(answers)[i],
            ),
        forall|k: int| 0 <= k < answers.len() && #[trigger] answers[k] is Ok ==> origin.contains(k),
    decreases answers.len(),
{
    if answers.len() == 0 {
        Seq::empty()
    } else {
        let last = answers.len() - 1;
        let before = lemma_origin(answers.drop_last());
        let origin = if answers[last] is Ok {
            before.push(last)
        } else {
            before
        };
        assert forall|k: int| 0 <= k < answers.len() && #[trigger] answers[k] is Ok implies origin.contains(k) by {
            if k < last {
                assert(answers.drop_last()[k] is Ok);
                let i = choose|i: int| 0 <= i < before.len() && before[i] == k;
                assert(origin[i] == k);
            } else {
                assert(origin[origin.len() - 1] == k);
            }
        }
        assert forall|i: int| 0 <= i < origin.len() implies 0 <= #[trigger] origin[i]
            < answers.len() && answers[origin[i]] == Ok::<SearchDocument, Error>(
            crate::engine::documents_read(answers)[i],
        ) by {
            if i < before.len() {
                assert(origin[i] == before[i]);
                assert(answers.drop_last()[before[i]] == answers[before[i]]);
            }
        }
        origin
    }
}

/// In memory, adding always succeeds. What is then read under the id is the document that
/// was given, and just that document is announced. Under any other id the answer is what it
/// was.
pub proof fn law_read_and_announced_are_the_same(
    before: MemoryEngine,
    title: &str,
    body: &str,
    added: Result<i32, Error>,
    after: MemoryEngine,
    id: i32,
    read_before: Result<SearchDocument, Error>,
    read: Result<SearchDocument, Error>,
)
    requires
        exists|e: &mut MemoryEngine|
            *e == before && *final(e) == after && #[trigger] call_ensures(
                MemoryEngine::add_document,
                (e, title, body),
                added,
            ),
        call_ensures(MemoryEngine::get_document, (&before, id), read_before),
        call_ensures(MemoryEngine::get_document, (&after, id), read),
    ensures
        added is Ok,
        id == added->Ok_0 ==> {
            &&& read matches Ok(doc)
            &&& doc.id == id && doc.title@ == title@ && doc.body@ == body@
            &&& after.events().last().value matches DocumentEvent::Created(announced)
            &&& announced.id == doc.id && announced.title@ == doc.title@ && announced.body@
                == doc.body@
        },
        id != added->Ok_0 ==> crate::laws::storage::alike(read_before, read),
{
}

/// In memory, deleting always succeeds. Then no document is read under the id, and under any
/// other id the answer is what it was.
pub proof fn law_deleted_is_not_read(
    before: MemoryEngine,
    deleted_id: i32,
    deleted: Result<(), Error>,
    after: MemoryEngine,
    id: i32,
    read_before: Result<SearchDocument, Error>,
    read: Result<SearchDocument, Error>,
)
    requires
        exists|e: &mut MemoryEngine|
            *e == before && *final(e) == after && #[trigger] call_ensures(
                MemoryEngine::delete_document,
                (e, deleted_id),
                deleted,
            ),
        call_ensures(MemoryEngine::get_document, (&before, id), read_before),
        call_ensures(MemoryEngine::get_document, (&after, id), read),
    ensures
        deleted is Ok,
        id == deleted_id ==> read == Err::<SearchDocument, Error>(Error::DocumentNotFound),
        id != deleted_id ==> crate::laws::storage::alike(read_before, read),
{
}

/// A storage and an index in memory that hold the same go on holding the same, whatever is
/// added or deleted through their engine; new ones hold the same.
pub proof fn law_storage_and_index_stay_together(
    storage: MemoryStorage,
    index: MemoryIndex,
    new: MemoryEngine,
    before: MemoryEngine,
    title: &str,
    body: &str,
    added: Result<i32, Error>,
    grown: MemoryEngine,
    id: i32,
    deleted: Result<(), Error>,
    shrunk: MemoryEngine,
)
    requires
        call_ensures(MemoryStorage::new, (), storage),
        call_ensures(MemoryIndex::new, (), index),
        call_ensures(MemoryEngine::new, (storage, index), new),
        before.storage()@ == before.index()@,
        exists|e: &mut MemoryEngine|
            *e == before && *final(e) == grown && #[trigger] call_ensures(
                MemoryEngine::add_document,
                (e, title, body),
                added,
            ),
        exists|e: &mut MemoryEngine|
            *e == before && *final(e) == shrunk && #[trigger] call_ensures(
                MemoryEngine::delete_document,
                (e, id),
                deleted,
            ),
    ensures
        new.storage()@ == new.index()@,
        new.events().len() == 0,
        grown.storage()@ == grown.index()@,
        shrunk.storage()@ == shrunk.index()@,
{
}

/// Where storage and index in memory hold the same, a search returns a document exactly where
/// the document can be read and the query is part of its title or of its body, whatever the
/// case of the letters. It returns it once, and as it is read.
pub proof fn law_search_returns_what_holds_the_query(
    engine: MemoryEngine,
    query: &str,
    outcome: Result<Vec<SearchDocument>, Error>,
    id: i32,
    read: Result<SearchDocument, Error>,
)
    requires
        engine.storage()@ == engine.index()@,
        call_ensures(MemoryEngine::search, (&engine, query), outcome),
        call_ensures(MemoryEngine::get_document, (&engine, id), read),
    ensures
        outcome is Ok,
        (exists|i: int| 0 <= i < outcome->Ok_0@.len() && (#[trigger] outcome->Ok_0@[i]).id == id)
            <==> read is Ok && {
            ||| crate::laws::memory_index::holds(
                crate::text::lowercase(read->Ok_0.title@),
                crate::text::lowercase(query@),
            )
            ||| crate::laws::memory_index::holds(
                crate::text::lowercase(read->Ok_0.body@),
                crate::text::lowercase(query@),
            )
        },
        forall|i: int|
            0 <= i < outcome->Ok_0@.len() && (#[trigger] outcome->Ok_0@[i]).id == id
                ==> outcome->Ok_0@[i].title@ == read->Ok_0.title@ && outcome->Ok_0@[i].body@
                == read->Ok_0.body@,
        forall|i: int, j: int|
            0 <= i < j < outcome->Ok_0@.len() ==> (#[trigger] outcome->Ok_0@[i]).id != (
            #[trigger] outcome->Ok_0@[j]).id,
{
    crate::memory_engine::law_search_is_exact(engine, query@, outcome);
    crate::laws::memory_index::lemma_holds(
        crate::text::lowercase(engine.storage()@[id].0),
        crate::text::lowercase(query@),
    );
    crate::laws::memory_index::lemma_holds(
        crate::text::lowercase(engine.storage()@[id].1),
        crate::text::lowercase(query@),
    );
    if crate::memory_engine::kept_and_matching(engine, query@, id) {
        let i = choose|i: int|
            0 <= i < outcome->Ok_0@.len() && #[trigger] outcome->Ok_0@[i].id == id;
        assert(outcome->Ok_0@[i].id == id);
    }
}

/// An engine keeps a hundred events for subscribers that lag.
pub proof fn law_a_hundred_events_are_kept<S: DocumentStorage, I: SearchIndex>(
    storage: S,
    index: I,
    engine: SearchEngine<S, I>,
)
    requires
        call_ensures(SearchEngine::<S, I>::new, (storage, index), engine),
    ensures
        crate::channel::opened(100, engine.announcer()),
        EVENT_CAPACITY == 100,
        engine.storage() == storage,
        engine.index() == index,
        engine.events().len() == 0,
{
}

/// A subscriber of an engine gets a stream of the channel through which the engine announces
/// its events.
pub proof fn law_subscribers_hear_the_announcements<S: DocumentStorage, I: SearchIndex>(
    engine: SearchEngine<S, I>,
    stream: BroadcastStream<DocumentEvent>,
    title: &str,
    body: &str,
    added: Result<i32, Error>,
    grown: SearchEngine<S, I>,
)
    requires
        call_ensures(SearchEngine::<S, I>::subscribe, (&engine,), stream),
        exists|e: &mut SearchEngine<S, I>|
            *e == engine && *final(e) == grown && #[trigger] call_ensures(
                SearchEngine::<S, I>::add_document,
                (e, title, body),
                added,
            ),
    ensures
        exists|receiver: Receiver<DocumentEvent>| #[trigger]
            call_ensures(
                Sender::<DocumentEvent>::subscribe,
                (&engine.announcer(),),
                receiver,
            ) && call_ensures(
                BroadcastStream::<DocumentEvent>::new,
                (receiver,),
                stream,
            ),
        added is Ok ==> exists|sent: Result<usize, DocumentEvent>| #[trigger]
            crate::channel::handed(engine.announcer(), grown.events().last().value, sent),
        grown.announcer() == engine.announcer(),
{
    let receiver = choose|receiver: Receiver<DocumentEvent>| #[trigger]
        crate::channel::subscribed(engine.announcer(), receiver) && call_ensures(
            BroadcastStream::<DocumentEvent>::new,
            (receiver,),
            stream,
        );
    assert(call_ensures(Sender::<DocumentEvent>::subscribe, (&engine.announcer(),), receiver));
}

} // verus!
