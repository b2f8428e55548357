//! An index kept in memory, searched by substring.
use crate::models::Error;
use crate::search::{Score, SearchIndex, ONE_BITS};
use crate::table::{
    new_texts, texts_clone, texts_entries, texts_insert, texts_len, texts_remove, TextTable,
};
use crate::text::{text_matches, to_lowercase};
use vstd::prelude::*;

verus! {

/// An index that keeps the texts of its documents in memory.
///
/// Its view has the title and the body of each document, by id.
pub struct MemoryIndex {
    documents: TextTable,
}

impl View for MemoryIndex {
    type V = Map<i32, (Seq<char>, Seq<char>)>;

    closed spec fn view(&self) -> Map<i32, (Seq<char>, Seq<char>)> {
        crate::table::texts(self.documents)
    }
}

impl Clone for MemoryIndex {
    fn clone(&self) -> (copy: Self)
        ensures
            copy@ == self@,
    {
        MemoryIndex { documents: texts_clone(&self.documents) }
    }
}

impl Default for MemoryIndex {
    fn default() -> (index: Self)
        ensures
            index@ == (Map::<i32, (Seq<char>, Seq<char>)>::empty()),
    {
        MemoryIndex { documents: new_texts() }
    }
}

impl MemoryIndex {
    /// An index without documents.
    pub fn new() -> (index: Self)
        ensures
            index@ == (Map::<i32, (Seq<char>, Seq<char>)>::empty()),
    {
        Self::default()
    }
}

/// The query occurs in the title or in the body, whatever the case of the letters.
pub open spec fn document_matches(query: Seq<char>, title: Seq<char>, body: Seq<char>) -> bool {
    crate::text::matches(query, title) || crate::text::matches(query, body)
}

/// The hits are the documents that match the query, each once, all with score 1.
pub open spec fn exact_hits(
    documents: Map<i32, (Seq<char>, Seq<char>)>,
    query: Seq<char>,
    hits: Seq<(i32, Score)>,
) -> bool {
    &&& crate::search::hit_ids(hits).no_duplicates()
    &&& forall|id: i32|
        #![trigger crate::search::hit_ids(hits).contains(id)]
        crate::search::hit_ids(hits).contains(id) <==> documents.contains_key(id)
            && document_matches(query, documents[id].0, documents[id].1)
    &&& forall|i: int| 0 <= i < hits.len() ==> #[trigger] hits[i].1.bits == ONE_BITS
}

impl SearchIndex for MemoryIndex {
    /// Ids are counted in an `i32`.
    open spec fn has_room(&self) -> bool {
        self@.dom().len() < i32::MAX
    }

    /// The document gets the id one above the number of documents, and takes the place of
    /// whatever had that id. Adding never fails.
    open spec fn adds(
        before: &Self,
        title: Seq<char>,
        body: Seq<char>,
        outcome: Result<(), Error>,
        after: &Self,
    ) -> bool {
        &&& outcome == Ok::<(), Error>(())
        &&& after@ == before@.insert((before@.dom().len() + 1) as i32, (title, body))
    }

    /// Deleting never fails, and changes nothing where no document has the id.
    open spec fn deletes(
        before: &Self,
        id: i32,
        outcome: Result<(), Error>,
        after: &Self,
    ) -> bool {
        &&& outcome == Ok::<(), Error>(())
        &&& after@ == before@.remove(id)
    }

    /// Searching never fails and finds the matching documents, in no particular order.
    open spec fn finds(&self, query: Seq<char>, outcome: Result<Vec<(i32, Score)>, Error>) -> bool {
        &&& outcome is Ok
        &&& exact_hits(self@, query, outcome->Ok_0@)
    }

    fn add_document(&mut self, title: &str, body: &str) -> (outcome: Result<(), Error>) {
        let id: i32 = texts_len(&self.documents) as i32 + 1;
        texts_insert(&mut self.documents, id, title.to_owned(), body.to_owned());
        Ok(())
    }

    fn delete_document(&mut self, id: i32) -> (outcome: Result<(), Error>) {
        texts_remove(&mut self.documents, id);
        Ok(())
    }

    fn search(&self, query: &str) -> (outcome: Result<Vec<(i32, Score)>, Error>) {
        let query_lower = to_lowercase(query);
        let entries = texts_entries(&self.documents);
        let mut hits: Vec<(i32, Score)> = Vec::new();
        // The entry that each hit comes from.
        let ghost mut origin: Seq<int> = Seq::empty();
        let mut n: usize = 0;
        while n < entries.len()
            invariant
                n <= entries@.len(),
                query_lower@ == crate::text::lowercase(query@),
                origin.len() == hits@.len(),
                forall|k: int| 0 <= k < origin.len() ==> 0 <= #[trigger] origin[k] < n,
                forall|k: int, l: int| 0 <= k < l < origin.len() ==> origin[k] < origin[l],
                forall|k: int|
                    0 <= k < hits@.len() ==> #[trigger] hits@[k] == (
                        entries@[origin[k]].0,
                        Score { bits: ONE_BITS },
                    ),
                forall|i: int|
                    0 <= i < n ==> (#[trigger] entry_matches(query@, entries@[i])
                        <==> origin.contains(i)),
            decreases entries@.len() - n,
        {
            let entry = &entries[n];
            let found = text_matches(query_lower.as_str(), entry.1.as_str()) || text_matches(
                query_lower.as_str(),
                entry.2.as_str(),
            );
            let ghost before = origin;
            if found {
                hits.push((entry.0, Score { bits: ONE_BITS }));
                proof {
                    origin = origin.push(n as int);
                }
            }
            proof {
                assert(found == entry_matches(query@, entries@[n as int]));
                assert forall|i: int| 0 <= i < n + 1 implies (#[trigger] entry_matches(
                    query@,
                    entries@[i],
                ) <==> origin.contains(i)) by {
                    if found {
                        assert(origin[before.len() as int] == n);
                        if before.contains(i) {
                            let k = choose|k: int| 0 <= k < before.len() && before[k] == i;
                            assert(origin[k] == i);
                        }
                    }
                }
            }
            n += 1;
        }
        proof {
            let ids = crate::search::hit_ids(hits@);
            assert forall|id: i32| #[trigger] ids.contains(id) <==> self@.contains_key(id)
                && document_matches(query@, self@[id].0, self@[id].1) by {
                if ids.contains(id) {
                    let k = choose|k: int| 0 <= k < ids.len() && ids[k] == id;
                    assert(hits@[k].0 == id);
                    assert(entries@[origin[k]].0 == id);
                    assert(entry_matches(query@, entries@[origin[k]]));
                }
                if self@.contains_key(id) && document_matches(query@, self@[id].0, self@[id].1) {
                    let i = choose|i: int| 0 <= i < entries@.len() && entries@[i].0 == id;
                    assert(entry_matches(query@, entries@[i]));
                    let k = choose|k: int| 0 <= k < origin.len() && origin[k] == i;
                    assert(hits@[k].0 == id);
                    assert(ids[k] == id);
                }
            }
            assert forall|k: int, l: int| 0 <= k < ids.len() && 0 <= l < ids.len() && k != l implies ids[k]
                != ids[l] by {
                assert(hits@[k].0 == entries@[origin[k]].0 && hits@[l].0 == entries@[origin[l]].0);
                assert(origin[k] < origin[l] || origin[l] < origin[k]);
            }
        }
        Ok(hits)
    }
}

/// The document of a table entry matches the query.
spec fn entry_matches(query: Seq<char>, entry: (i32, String, String)) -> bool {
    document_matches(query, entry.1@, entry.2@)
}

} // verus!
