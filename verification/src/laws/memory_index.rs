//! Laws of the index in memory.
use crate::models::Error;
use crate::search::memory::MemoryIndex;
use crate::search::{Score, SearchIndex};
use crate::text::text_matches;
use vstd::prelude::*;

verus! {

/// `whole` is some text, `part`, and some text.
pub open spec fn holds(whole: Seq<char>, part: Seq<char>) -> bool {
    exists|a: Seq<char>, b: Seq<char>| whole == #[trigger] (a + part + b)
}

/// Hits have an id.
pub open spec fn has_id(hits: Seq<(i32, Score)>, id: i32) -> bool {
    exists|i: int| 0 <= i < hits.len() && (#[trigger] hits[i]).0 == id
}

/// To stand in a text at some position is to be a contiguous part of it.
pub(crate) proof fn lemma_holds(whole: Seq<char>, part: Seq<char>)
    ensures
        holds(whole, part) <==> crate::text::occurs_in(part, whole),
{
    if holds(whole, part) {
        let (a, b) = choose|a: Seq<char>, b: Seq<char>| whole == #[trigger] (a + part + b);
        assert(whole.subrange(a.len() as int, (a.len() + part.len()) as int) =~= part);
    }
    if crate::text::occurs_in(part, whole) {
        let i = choose|i: int|
            0 <= i <= whole.len() - part.len() && #[trigger] whole.subrange(i, i + part.len())
                == part;
        let a = whole.subrange(0, i);
        let b = whole.subrange(i + part.len(), whole.len() as int);
        assert(whole =~= a + part + b);
    }
}

/// Hits with the same ids.
proof fn lemma_has_id(hits: Seq<(i32, Score)>, id: i32)
    ensures
        has_id(hits, id) <==> crate::search::hit_ids(hits).contains(id),
{
    let ids = crate::search::hit_ids(hits);
    if has_id(hits, id) {
        let i = choose|i: int| 0 <= i < hits.len() && (#[trigger] hits[i]).0 == id;
        assert(ids[i] == id);
    }
    if ids.contains(id) {
        let i = choose|i: int| 0 <= i < ids.len() && ids[i] == id;
        assert(hits[i].0 == id);
    }
}

/// A text matches a query in lower case exactly where the query is a contiguous part of the
/// text in lower case.
pub proof fn law_matching_is_being_part_of(lower_query: &str, text: &str, found: bool)
    requires
        call_ensures(text_matches, (lower_query, text), found),
    ensures
        found <==> holds(crate::text::lowercase(text@), lower_query@),
{
    lemma_holds(crate::text::lowercase(text@), lower_query@);
}

/// A document that was added is found by exactly the queries that are part of its title or of
/// its body, whatever the case of the letters and however many words they have. It is found
/// under the id one above how many documents there were. All other documents are found as
/// they were before.
pub proof fn law_added_is_found_by_its_parts(
    before: MemoryIndex,
    title: &str,
    body: &str,
    added: Result<(), Error>,
    after: MemoryIndex,
    query: &str,
    found_before: Result<Vec<(i32, Score)>, Error>,
    found_after: Result<Vec<(i32, Score)>, Error>,
    id: i32,
)
    requires
        before@.dom().len() < i32::MAX,
        exists|x: &mut MemoryIndex|
            *x == before && *final(x) == after && #[trigger] call_ensures(
                <MemoryIndex as SearchIndex>::add_document,
                (x, title, body),
                added,
            ),
        call_ensures(<MemoryIndex as SearchIndex>::search, (&before, query), found_before),
        call_ensures(<MemoryIndex as SearchIndex>::search, (&after, query), found_after),
    ensures
        added is Ok,
        found_before is Ok,
        found_after is Ok,
        id == before@.dom().len() + 1 ==> (has_id(found_after->Ok_0@, id) <==> {
            ||| holds(crate::text::lowercase(title@), crate::text::lowercase(query@))
            ||| holds(crate::text::lowercase(body@), crate::text::lowercase(query@))
        }),
        id != before@.dom().len() + 1 ==> (has_id(found_after->Ok_0@, id) <==> has_id(
            found_before->Ok_0@,
            id,
        )),
{
    lemma_holds(crate::text::lowercase(title@), crate::text::lowercase(query@));
    lemma_holds(crate::text::lowercase(body@), crate::text::lowercase(query@));
    lemma_has_id(found_before->Ok_0@, id);
    lemma_has_id(found_after->Ok_0@, id);
}

/// A document is found by exactly the queries that are part of its title or of its body.
pub proof fn law_found_are_those_that_hold_the_query(
    index: MemoryIndex,
    query: &str,
    found: Result<Vec<(i32, Score)>, Error>,
    id: i32,
)
    requires
        call_ensures(<MemoryIndex as SearchIndex>::search, (&index, query), found),
    ensures
        found is Ok,
        has_id(found->Ok_0@, id) <==> index@.contains_key(id) && {
            ||| holds(crate::text::lowercase(index@[id].0), crate::text::lowercase(query@))
            ||| holds(crate::text::lowercase(index@[id].1), crate::text::lowercase(query@))
        },
{
    lemma_holds(crate::text::lowercase(index@[id].0), crate::text::lowercase(query@));
    lemma_holds(crate::text::lowercase(index@[id].1), crate::text::lowercase(query@));
    lemma_has_id(found->Ok_0@, id);
}

/// Every hit has the score 1, and no document is hit twice.
pub proof fn law_hits_are_single_and_score_one(
    index: MemoryIndex,
    query: &str,
    found: Result<Vec<(i32, Score)>, Error>,
    i: int,
    j: int,
)
    requires
        call_ensures(<MemoryIndex as SearchIndex>::search, (&index, query), found),
        0 <= i < found->Ok_0@.len(),
        0 <= j < found->Ok_0@.len(),
        i != j,
    ensures
        found->Ok_0@[i].0 != found->Ok_0@[j].0,
        found->Ok_0@[i].1.bits == 0x3f80_0000,
        found->Ok_0@[j].1.bits == 0x3f80_0000,
{
    let ids = crate::search::hit_ids(found->Ok_0@);
    assert(ids[i] == found->Ok_0@[i].0 && ids[j] == found->Ok_0@[j].0);
}

/// A query that is part of another finds all that the other finds.
pub proof fn law_shorter_queries_find_more(
    index: MemoryIndex,
    query: &str,
    longer: &str,
    found: Result<Vec<(i32, Score)>, Error>,
    found_longer: Result<Vec<(i32, Score)>, Error>,
    id: i32,
)
    requires
        holds(crate::text::lowercase(longer@), crate::text::lowercase(query@)),
        call_ensures(<MemoryIndex as SearchIndex>::search, (&index, query), found),
        call_ensures(<MemoryIndex as SearchIndex>::search, (&index, longer), found_longer),
        has_id(found_longer->Ok_0@, id),
    ensures
        has_id(found->Ok_0@, id),
{
    law_found_are_those_that_hold_the_query(index, query, found, id);
    law_found_are_those_that_hold_the_query(index, longer, found_longer, id);
    lemma_holds_through(
        crate::text::lowercase(index@[id].0),
        crate::text::lowercase(longer@),
        crate::text::lowercase(query@),
    );
    lemma_holds_through(
        crate::text::lowercase(index@[id].1),
        crate::text::lowercase(longer@),
        crate::text::lowercase(query@),
    );
}

/// A part of a part is a part.
proof fn lemma_holds_through(whole: Seq<char>, middle: Seq<char>, part: Seq<char>)
    requires
        holds(middle, part),
    ensures
        holds(whole, middle) ==> holds(whole, part),
{
    if holds(whole, middle) {
        let (a, b) = choose|a: Seq<char>, b: Seq<char>| whole == #[trigger] (a + middle + b);
        let (c, d) = choose|c: Seq<char>, d: Seq<char>| middle == #[trigger] (c + part + d);
        assert(whole =~= (a + c) + part + (d + b));
    }
}

/// Two queries that are the same in lower case find the same documents.
pub proof fn law_case_of_the_query_is_ignored(
    index: MemoryIndex,
    query: &str,
    other: &str,
    found: Result<Vec<(i32, Score)>, Error>,
    found_other: Result<Vec<(i32, Score)>, Error>,
    id: i32,
)
    requires
        crate::text::lowercase(query@) == crate::text::lowercase(other@),
        call_ensures(<MemoryIndex as SearchIndex>::search, (&index, query), found),
        call_ensures(<MemoryIndex as SearchIndex>::search, (&index, other), found_other),
    ensures
        has_id(found->Ok_0@, id) <==> has_id(found_other->Ok_0@, id),
{
    law_found_are_those_that_hold_the_query(index, query, found, id);
    law_found_are_those_that_hold_the_query(index, other, found_other, id);
}

/// Deleting always succeeds. Afterwards no query finds the document, and every other document
/// is found as it was.
pub proof fn law_deleted_is_not_found(
    before: MemoryIndex,
    deleted_id: i32,
    deleted: Result<(), Error>,
    after: MemoryIndex,
    query: &str,
    found_before: Result<Vec<(i32, Score)>, Error>,
    found_after: Result<Vec<(i32, Score)>, Error>,
    id: i32,
)
    requires
        exists|x: &mut MemoryIndex|
            *x == before && *final(x) == after && #[trigger] call_ensures(
                <MemoryIndex as SearchIndex>::delete_document,
                (x, deleted_id),
                deleted,
            ),
        call_ensures(<MemoryIndex as SearchIndex>::search, (&before, query), found_before),
        call_ensures(<MemoryIndex as SearchIndex>::search, (&after, query), found_after),
    ensures
        deleted is Ok,
        found_before is Ok,
        found_after is Ok,
        has_id(found_after->Ok_0@, id) <==> id != deleted_id && has_id(found_before->Ok_0@, id),
{
    lemma_has_id(found_before->Ok_0@, id);
    lemma_has_id(found_after->Ok_0@, id);
}

/// A new index finds nothing, and a clone finds what the index that it was made of finds.
pub proof fn law_new_and_cloned(
    index: MemoryIndex,
    copy: MemoryIndex,
    query: &str,
    found: Result<Vec<(i32, Score)>, Error>,
    found_copy: Result<Vec<(i32, Score)>, Error>,
    id: i32,
)
    requires
        call_ensures(<MemoryIndex as Clone>::clone, (&index,), copy),
        call_ensures(<MemoryIndex as SearchIndex>::search, (&index, query), found),
        call_ensures(<MemoryIndex as SearchIndex>::search, (&copy, query), found_copy),
    ensures
        has_id(found->Ok_0@, id) <==> has_id(found_copy->Ok_0@, id),
        call_ensures(MemoryIndex::new, (), index) ==> found->Ok_0@.len() == 0,
        call_ensures(<MemoryIndex as Default>::default, (), index) ==> found->Ok_0@.len() == 0,
{
    law_found_are_those_that_hold_the_query(index, query, found, id);
    law_found_are_those_that_hold_the_query(copy, query, found_copy, id);
    if found->Ok_0@.len() > 0 {
        let first = found->Ok_0@[0].0;
        assert(has_id(found->Ok_0@, first));
        law_found_are_those_that_hold_the_query(index, query, found, first);
    }
}

} // verus!
