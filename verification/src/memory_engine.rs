//! What holds of an engine whose storage and index are both in memory.
use crate::engine::SearchEngine;
use crate::models::{Error, SearchDocument};
use crate::search::memory::MemoryIndex;
use crate::search::Score;
use crate::search::SearchIndex;
use crate::storage::memory::MemoryStorage;
use crate::storage::DocumentStorage;
use vstd::prelude::*;

verus! {

/// An engine in memory.
pub type MemoryEngine = SearchEngine<MemoryStorage, MemoryIndex>;

/// The storage and the index hold the same documents under the same ids.
pub open spec fn in_step(engine: MemoryEngine) -> bool {
    engine.storage()@ == engine.index()@
}

/// The document with `id` is kept and matches the query.
pub open spec fn kept_and_matching(engine: MemoryEngine, query: Seq<char>, id: i32) -> bool {
    &&& engine.storage()@.contains_key(id)
    &&& crate::search::memory::document_matches(
        query,
        engine.storage()@[id].0,
        engine.storage()@[id].1,
    )
}

/// Every document among `documents` is one that a storage answered.
proof fn lemma_read_from_answers(answers: Seq<Result<SearchDocument, Error>>, i: int)
    requires
        0 <= i < crate::engine::documents_read(answers).len(),
    ensures
        exists|k: int|
            0 <= k < answers.len() && #[trigger] answers[k] == Ok::<SearchDocument, Error>(
                crate::engine::documents_read(answers)[i],
            ),
    decreases answers.len(),
{
    let shorter = answers.drop_last();
    let documents = crate::engine::documents_read(shorter);
    if i < documents.len() {
        lemma_read_from_answers(shorter, i);
        let k = choose|k: int|
            0 <= k < shorter.len() && #[trigger] shorter[k] == Ok::<SearchDocument, Error>(
                documents[i],
            );
        assert(answers[k] == Ok::<SearchDocument, Error>(crate::engine::documents_read(answers)[i]));
    } else {
        assert(answers[answers.len() - 1] == Ok::<SearchDocument, Error>(
            crate::engine::documents_read(answers)[i],
        ));
    }
}

/// Where a storage answered every read, all the answers are passed on.
proof fn lemma_all_read(answers: Seq<Result<SearchDocument, Error>>)
    requires
        forall|i: int| 0 <= i < answers.len() ==> #[trigger] answers[i] is Ok,
    ensures
        crate::engine::documents_read(answers).len() == answers.len(),
        forall|i: int|
            0 <= i < answers.len() ==> #[trigger] crate::engine::documents_read(answers)[i]
                == answers[i]->Ok_0,
    decreases answers.len(),
{
    if answers.len() > 0 {
        assert forall|i: int| 0 <= i < answers.drop_last().len() implies #[trigger] answers.drop_last()[i] is Ok by {
            assert(answers[i] is Ok);
        }
        lemma_all_read(answers.drop_last());
        assert(answers[answers.len() - 1] is Ok);
    }
}

/// A new engine over an empty storage and an empty index is in step.
pub proof fn law_new_engine_in_step(engine: MemoryEngine)
    requires
        engine.storage()@ == Map::<i32, (Seq<char>, Seq<char>)>::empty(),
        engine.index()@ == Map::<i32, (Seq<char>, Seq<char>)>::empty(),
    ensures
        in_step(engine),
{
}

/// Adding a document to an engine that is in step succeeds and leaves it in step.
pub proof fn law_add_stays_in_step(
    before: MemoryEngine,
    title: Seq<char>,
    body: Seq<char>,
    outcome: Result<i32, Error>,
    after: MemoryEngine,
)
    requires
        in_step(before),
        MemoryEngine::adds(before, title, body, outcome, after),
    ensures
        outcome is Ok,
        outcome->Ok_0 == before.storage()@.dom().len() + 1,
        in_step(after),
        after.storage()@ == before.storage()@.insert(outcome->Ok_0, (title, body)),
{
}

/// Deleting a document from an engine that is in step succeeds and leaves it in step.
pub proof fn law_delete_stays_in_step(
    before: MemoryEngine,
    id: i32,
    outcome: Result<(), Error>,
    after: MemoryEngine,
)
    requires
        in_step(before),
        MemoryEngine::deletes(before, id, outcome, after),
    ensures
        outcome is Ok,
        in_step(after),
        after.storage()@ == before.storage()@.remove(id),
{
}

/// A search in an engine that is in step succeeds and returns exactly the documents that are
/// kept and match the query, each once.
pub proof fn law_search_is_exact(
    engine: MemoryEngine,
    query: Seq<char>,
    outcome: Result<Vec<SearchDocument>, Error>,
)
    requires
        in_step(engine),
        engine.finds(query, outcome),
    ensures
        outcome is Ok,
        forall|i: int|
            0 <= i < outcome->Ok_0@.len() ==> {
                let doc = #[trigger] outcome->Ok_0@[i];
                &&& kept_and_matching(engine, query, doc.id)
                &&& engine.storage()@[doc.id] == (doc.title@, doc.body@)
            },
        forall|id: i32| #[trigger]
            kept_and_matching(engine, query, id) ==> exists|i: int|
                0 <= i < outcome->Ok_0@.len() && #[trigger] outcome->Ok_0@[i].id == id,
        forall|i: int, j: int|
            0 <= i < j < outcome->Ok_0@.len() ==> outcome->Ok_0@[i].id != outcome->Ok_0@[j].id,
{
    let documents = outcome->Ok_0@;
    let (hits, answers) = choose|
        hits: Vec<(i32, Score)>,
        answers: Seq<Result<SearchDocument, Error>>,
    |
        {
            &&& engine.index().finds(query, Ok(hits))
            &&& #[trigger] crate::engine::all_read(engine.storage(), hits@, answers)
            &&& documents == crate::engine::documents_read(answers)
        };
    let ids = crate::search::hit_ids(hits@);
    assert forall|i: int| 0 <= i < answers.len() implies #[trigger] answers[i] is Ok && answers[i]->Ok_0.id
        == ids[i] && kept_and_matching(engine, query, ids[i]) && engine.storage()@[ids[i]] == (
        answers[i]->Ok_0.title@,
        answers[i]->Ok_0.body@,
    ) by {
        assert(ids.contains(ids[i]));
        assert(engine.storage().reads(hits@[i].0, answers[i]));
    }
    lemma_all_read(answers);
    assert forall|i: int| 0 <= i < documents.len() implies {
        let doc = #[trigger] documents[i];
        &&& kept_and_matching(engine, query, doc.id)
        &&& engine.storage()@[doc.id] == (doc.title@, doc.body@)
    } by {
        assert(documents[i] == answers[i]->Ok_0);
    }
    assert forall|id: i32| #[trigger] kept_and_matching(engine, query, id) implies exists|i: int|
        0 <= i < documents.len() && #[trigger] documents[i].id == id by {
        assert(ids.contains(id));
        let i = choose|i: int| 0 <= i < ids.len() && ids[i] == id;
        assert(answers[i] is Ok);
        assert(documents[i].id == id);
    }
    assert forall|i: int, j: int| 0 <= i < j < documents.len() implies documents[i].id
        != documents[j].id by {
        assert(answers[i] is Ok && answers[j] is Ok);
        assert(ids[i] != ids[j]);
    }
}

/// What is read under the id of a document just added is that document.
pub proof fn law_added_is_read(
    before: MemoryEngine,
    title: Seq<char>,
    body: Seq<char>,
    id: i32,
    after: MemoryEngine,
    read: Result<SearchDocument, Error>,
)
    requires
        MemoryEngine::adds(before, title, body, Ok(id), after),
        after.storage().reads(id, read),
    ensures
        read is Ok,
        read->Ok_0@ == (crate::models::DocumentView { id, title, body }),
{
}

/// Adding or deleting a document changes nothing under any other id: what is read there, and
/// whether it is kept and matches a query.
pub proof fn law_others_are_kept(
    before: MemoryEngine,
    title: Seq<char>,
    body: Seq<char>,
    id: i32,
    after: MemoryEngine,
    other: i32,
    read: Result<SearchDocument, Error>,
    query: Seq<char>,
)
    requires
        MemoryEngine::adds(before, title, body, Ok(id), after) || MemoryEngine::deletes(
            before,
            id,
            Ok(()),
            after,
        ),
        other != id,
    ensures
        after.storage().reads(other, read) <==> before.storage().reads(other, read),
        kept_and_matching(after, query, other) <==> kept_and_matching(before, query, other),
{
}

/// A document just added is found by every query that it matches.
pub proof fn law_added_is_found(
    before: MemoryEngine,
    title: Seq<char>,
    body: Seq<char>,
    id: i32,
    after: MemoryEngine,
    query: Seq<char>,
    outcome: Result<Vec<SearchDocument>, Error>,
)
    requires
        in_step(before),
        MemoryEngine::adds(before, title, body, Ok(id), after),
        crate::search::memory::document_matches(query, title, body),
        after.finds(query, outcome),
    ensures
        outcome is Ok,
        exists|i: int|
            0 <= i < outcome->Ok_0@.len() && #[trigger] outcome->Ok_0@[i]@ == (
                crate::models::DocumentView { id, title, body }),
{
    law_add_stays_in_step(before, title, body, Ok(id), after);
    law_search_is_exact(after, query, outcome);
    assert(kept_and_matching(after, query, id));
    let i = choose|i: int| 0 <= i < outcome->Ok_0@.len() && #[trigger] outcome->Ok_0@[i].id == id;
    assert(outcome->Ok_0@[i]@ == (crate::models::DocumentView { id, title, body }));
}

/// A document that was deleted can be neither read nor found.
pub proof fn law_deleted_is_gone(
    before: MemoryEngine,
    id: i32,
    after: MemoryEngine,
    read: Result<SearchDocument, Error>,
    query: Seq<char>,
    documents: Vec<SearchDocument>,
)
    requires
        MemoryEngine::deletes(before, id, Ok(()), after),
        after.storage().reads(id, read),
        after.finds(query, Ok(documents)),
    ensures
        read == Err::<SearchDocument, Error>(Error::DocumentNotFound),
        forall|i: int| 0 <= i < documents@.len() ==> #[trigger] documents@[i].id != id,
{
    let (hits, answers) = choose|
        hits: Vec<(i32, Score)>,
        answers: Seq<Result<SearchDocument, Error>>,
    |
        {
            &&& after.index().finds(query, Ok(hits))
            &&& #[trigger] crate::engine::all_read(after.storage(), hits@, answers)
            &&& documents@ == crate::engine::documents_read(answers)
        };
    assert forall|i: int| 0 <= i < documents@.len() implies #[trigger] documents@[i].id != id by {
        lemma_read_from_answers(answers, i);
        let k = choose|k: int|
            0 <= k < answers.len() && #[trigger] answers[k] == Ok::<SearchDocument, Error>(
                documents@[i],
            );
        assert(after.storage().reads(hits@[k].0, answers[k]));
    }
}

/// Two queries that differ only in case get the same answers.
pub proof fn law_case_is_ignored(
    engine: MemoryEngine,
    query: Seq<char>,
    other: Seq<char>,
    outcome: Result<Vec<SearchDocument>, Error>,
)
    requires
        crate::text::lowercase(query) == crate::text::lowercase(other),
        engine.finds(query, outcome),
    ensures
        engine.finds(other, outcome),
{
    if outcome is Ok {
        let documents = outcome->Ok_0@;
        let (hits, answers) = choose|
            hits: Vec<(i32, Score)>,
            answers: Seq<Result<SearchDocument, Error>>,
        |
            {
                &&& engine.index().finds(query, Ok(hits))
                &&& #[trigger] crate::engine::all_read(engine.storage(), hits@, answers)
                &&& documents == crate::engine::documents_read(answers)
            };
        assert forall|id: i32| #[trigger]
            crate::search::hit_ids(hits@).contains(id) <==> engine.index()@.contains_key(id)
                && crate::search::memory::document_matches(
                other,
                engine.index()@[id].0,
                engine.index()@[id].1,
            ) by {
        }
        assert(engine.index().finds(other, Ok(hits)));
        assert(crate::engine::all_read(engine.storage(), hits@, answers));
    }
}

} // verus!
