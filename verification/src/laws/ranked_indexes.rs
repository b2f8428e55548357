//! Laws of the indexes that tantivy keeps.
use crate::models::Error;
use crate::search::optimized_index::{locate_appended, OptimizedIndex};
use crate::search::schema::{ParsedQuery, TermRecord, TextSchema};
use crate::search::tantivy_index::TantivyIndex;
use crate::search::{RankedHit, Score, SEARCH_LIMIT};
use crate::table::Place;
use tantivy::schema::Schema;
use tantivy::TantivyDocument;
use vstd::prelude::*;

verus! {

/// A plain index answers every hit, in the order of the hits and with its score. The id of a
/// hit is the number of its document; a number that no id can have is answered with the
/// number below zero that lies 2 to the 32nd away.
pub proof fn law_document_numbers_are_the_ids(
    index: &TantivyIndex,
    hits: &Vec<RankedHit>,
    results: Vec<(i32, Score)>,
    i: int,
)
    requires
        call_ensures(TantivyIndex::search_results, (index, hits), results),
        0 <= i < hits@.len(),
    ensures
        results@.len() == hits@.len(),
        hits@[i].doc_id <= i32::MAX ==> results@[i].0 == hits@[i].doc_id,
        hits@[i].doc_id > i32::MAX ==> results@[i].0 == hits@[i].doc_id - 0x1_0000_0000,
        results@[i].1.bits == hits@[i].score.bits,
{
}

/// Hits on documents with different numbers are answered with different ids, and hits on
/// documents with the same number with the same id.
pub proof fn law_ids_tell_documents_apart(
    index: &TantivyIndex,
    hits: &Vec<RankedHit>,
    results: Vec<(i32, Score)>,
    i: int,
    j: int,
)
    requires
        call_ensures(TantivyIndex::search_results, (index, hits), results),
        0 <= i < hits@.len(),
        0 <= j < hits@.len(),
    ensures
        results@.len() == hits@.len(),
        results@[i].0 == results@[j].0 <==> hits@[i].doc_id == hits@[j].doc_id,
{
    law_document_numbers_are_the_ids(index, hits, results, i);
    law_document_numbers_are_the_ids(index, hits, results, j);
}

/// A plain index deletes nothing and says that all went well.
pub proof fn law_plain_index_deletes_nothing(
    before: TantivyIndex,
    id: i32,
    deleted: Result<(), Error>,
    after: TantivyIndex,
)
    requires
        exists|x: &mut TantivyIndex|
            *x == before && *final(x) == after && #[trigger] call_ensures(
                TantivyIndex::delete_document,
                (x, id),
                deleted,
            ),
    ensures
        deleted is Ok,
        after == before,
{
}

/// What is put into an index for a document is its title in the first field and its body in
/// the second, both as they are and nothing else. That holds of both kinds of index, whose
/// schemas have these two fields, by their names.
pub proof fn law_documents_are_put_in_whole(
    plain: TantivyIndex,
    stemmed: TextSchema,
    title: &str,
    body: &str,
    document: TantivyDocument,
)
    requires
        call_ensures(TantivyIndex::new, (), plain),
        call_ensures(OptimizedIndex::create_schema, (), stemmed),
        call_ensures(TantivyIndex::create_document, (&plain, title, body), document)
            || call_ensures(TextSchema::create_document, (&plain.fields, title, body), document)
            || call_ensures(TextSchema::create_document, (&stemmed, title, body), document),
    ensures
        crate::search::schema::document_texts(document).len() == 2,
        crate::search::schema::document_texts(document)[0] == (0u32, title@),
        crate::search::schema::document_texts(document)[1] == (1u32, body@),
        plain.fields.fields().len() == 2,
        plain.fields.fields()[0] == ("title"@, "default"@, TermRecord::Positions),
        plain.fields.fields()[1] == ("body"@, "default"@, TermRecord::Positions),
        stemmed.fields().len() == 2,
        stemmed.fields()[0] == ("title"@, "en_stem"@, TermRecord::Positions),
        stemmed.fields()[1] == ("body"@, "en_stem"@, TermRecord::Positions),
{
}

/// A query is parsed as it was asked, about both fields of the schema, and nothing is made of
/// it but what tantivy makes of it.
pub proof fn law_queries_are_about_title_and_body(
    plain: TantivyIndex,
    stemmed: TextSchema,
    query: &str,
    outcome: Result<ParsedQuery, Error>,
    stemmed_outcome: Result<ParsedQuery, Error>,
    fields: Vec<u32>,
)
    requires
        call_ensures(TantivyIndex::new, (), plain),
        call_ensures(OptimizedIndex::create_schema, (), stemmed),
        call_ensures(TextSchema::parse_query, (&plain.fields, query), outcome),
        call_ensures(TextSchema::parse_query, (&stemmed, query), stemmed_outcome),
        call_ensures(TextSchema::query_fields, (&stemmed,), fields),
    ensures
        fields@ == seq![0u32, 1u32],
        match crate::search::schema::parsed(
            seq![
                ("title"@, "default"@, TermRecord::Positions),
                ("body"@, "default"@, TermRecord::Positions),
            ],
            seq![0u32, 1u32],
            query@,
        ) {
            Ok(parsed) => outcome == Ok::<ParsedQuery, Error>(parsed),
            Err(report) => outcome matches Err(Error::Index(text)) && text@ == report,
        },
        match crate::search::schema::parsed(
            seq![
                ("title"@, "en_stem"@, TermRecord::Positions),
                ("body"@, "en_stem"@, TermRecord::Positions),
            ],
            seq![0u32, 1u32],
            query@,
        ) {
            Ok(parsed) => stemmed_outcome == Ok::<ParsedQuery, Error>(parsed),
            Err(report) => stemmed_outcome matches Err(Error::Index(text)) && text@ == report,
        },
{
}

/// The document that a new document's id stands for is the one that was appended: to delete
/// the id is to be told its place, and once more is to be told nothing.
pub proof fn law_an_id_stands_for_its_document(
    before: OptimizedIndex,
    place: Place,
    outcome: Result<(), Error>,
    after: OptimizedIndex,
    told: Option<Place>,
    deleted: OptimizedIndex,
    told_again: Option<Place>,
    deleted_again: OptimizedIndex,
)
    requires
        exists|x: &mut OptimizedIndex|
            *x == before && *final(x) == after && #[trigger] call_ensures(
                OptimizedIndex::add_document,
                (x, Ok::<Place, Error>(place)),
                outcome,
            ),
        exists|x: &mut OptimizedIndex|
            *x == after && *final(x) == deleted && #[trigger] call_ensures(
                OptimizedIndex::delete_document,
                (x, before.next()),
                told,
            ),
        exists|x: &mut OptimizedIndex|
            *x == deleted && *final(x) == deleted_again && #[trigger] call_ensures(
                OptimizedIndex::delete_document,
                (x, before.next()),
                told_again,
            ),
    ensures
        outcome is Ok,
        told == Some(place),
        told_again is None,
        deleted_again.next() == before.next() + 1,
{
}

/// Adding a document, deleting one or giving out an id does not change what any other id
/// stands for.
pub proof fn law_other_ids_are_kept(
    before: OptimizedIndex,
    appended: Result<Place, Error>,
    outcome: Result<(), Error>,
    added: OptimizedIndex,
    id: i32,
    told_of_id: Option<Place>,
    deleted: OptimizedIndex,
    other: i32,
    told_before: Option<Place>,
    rest_before: OptimizedIndex,
    told_added: Option<Place>,
    rest_added: OptimizedIndex,
    told_deleted: Option<Place>,
    rest_deleted: OptimizedIndex,
)
    requires
        exists|x: &mut OptimizedIndex|
            *x == before && *final(x) == added && #[trigger] call_ensures(
                OptimizedIndex::add_document,
                (x, appended),
                outcome,
            ),
        exists|x: &mut OptimizedIndex|
            *x == before && *final(x) == deleted && #[trigger] call_ensures(
                OptimizedIndex::delete_document,
                (x, id),
                told_of_id,
            ),
        exists|x: &mut OptimizedIndex|
            *x == before && *final(x) == rest_before && #[trigger] call_ensures(
                OptimizedIndex::delete_document,
                (x, other),
                told_before,
            ),
        exists|x: &mut OptimizedIndex|
            *x == added && *final(x) == rest_added && #[trigger] call_ensures(
                OptimizedIndex::delete_document,
                (x, other),
                told_added,
            ),
        exists|x: &mut OptimizedIndex|
            *x == deleted && *final(x) == rest_deleted && #[trigger] call_ensures(
                OptimizedIndex::delete_document,
                (x, other),
                told_deleted,
            ),
    ensures
        appended is Err || other != before.next() ==> told_added == told_before,
        other != id ==> told_deleted == told_before,
        appended matches Err(error) ==> outcome == Err::<(), Error>(error),
        added.next() == before.next() + 1,
        deleted.next() == before.next(),
{
}

/// Ids are given out one after the other from 1, whatever is done with them.
pub proof fn law_ids_are_given_out_in_turn(
    new: OptimizedIndex,
    before: OptimizedIndex,
    id: i32,
    after: OptimizedIndex,
    next_id: i32,
    last: OptimizedIndex,
    left: bool,
)
    requires
        call_ensures(OptimizedIndex::new, (), new),
        exists|x: &mut OptimizedIndex|
            *x == before && *final(x) == after && #[trigger] call_ensures(
                OptimizedIndex::get_next_id,
                (x,),
                id,
            ),
        exists|x: &mut OptimizedIndex|
            *x == after && *final(x) == last && #[trigger] call_ensures(
                OptimizedIndex::get_next_id,
                (x,),
                next_id,
            ),
        call_ensures(OptimizedIndex::has_next_id, (&before,), left),
    ensures
        next_id == id + 1,
        before == new ==> id == 1,
        left <==> id < i32::MAX,
        id == before.next(),
{
}

/// Each answer is one of the hits, with its score and an id that stands for its document; the
/// answers come in the order of the hits. A hit that is left out is one whose document no id
/// stands for. What an id stands for is what deleting it tells.
pub proof fn law_answers_are_the_known_hits(
    index: OptimizedIndex,
    hits: &Vec<RankedHit>,
    results: Vec<(i32, Score)>,
)
    requires
        call_ensures(OptimizedIndex::search, (&index, hits), results),
    ensures
        exists|origin: Seq<int>| #[trigger] picked_out(index, hits@, results@, origin),
        hits@.len() <= 10 ==> results@.len() <= 10,
{
    let m = index.mapping();
    let ids = choose|ids: Seq<Option<i32>>| #[trigger]
        crate::search::optimized_index::resolves(m, hits@, ids) && results@
            == crate::search::optimized_index::resolved(hits@, ids);
    let origin = lemma_origin(hits@, ids);
    assert forall|k: int| 0 <= k < hits@.len() && !origin.contains(k) implies forall|id: i32|
        !#[trigger] tells(index, id, (hits@[k].segment, hits@[k].doc_id)) by {
        assert(crate::search::optimized_index::names(m, hits@[k].place(), ids[k]));
        assert(ids[k] is None);
        assert forall|id: i32| !#[trigger] tells(
            index,
            id,
            (hits@[k].segment, hits@[k].doc_id),
        ) by {
            assert(!crate::search::optimized_index::stands_for(m, id, hits@[k].place()));
        }
    }
    assert forall|i: int| 0 <= i < origin.len() implies {
        &&& 0 <= #[trigger] origin[i] < hits@.len()
        &&& results@[i].1.bits == hits@[origin[i]].score.bits
        &&& tells(
            index,
            results@[i].0,
            (hits@[origin[i]].segment, hits@[origin[i]].doc_id),
        )
    } by {
        assert(crate::search::optimized_index::names(
            m,
            hits@[origin[i]].place(),
            ids[origin[i]],
        ));
    }
    assert(picked_out(index, hits@, results@, origin));
}

/// Deleting the id from the index would tell the place.
pub open spec fn tells(index: OptimizedIndex, id: i32, place: Place) -> bool {
    index.mapping().contains_key(id) && index.mapping()[id] == place
}

/// What an index tells of an id is what is answered where the id is deleted.
pub proof fn law_deleting_tells(
    index: OptimizedIndex,
    id: i32,
    told: Option<Place>,
    after: OptimizedIndex,
)
    requires
        exists|x: &mut OptimizedIndex|
            *x == index && *final(x) == after && #[trigger] call_ensures(
                OptimizedIndex::delete_document,
                (x, id),
                told,
            ),
    ensures
        told matches Some(place) ==> tells(index, id, place),
        told is None ==> forall|place: Place| !#[trigger] tells(index, id, place),
{
}

/// The results are the hits at `origin`, in order, each with an id of its document; the other
/// hits have none.
pub open spec fn picked_out(
    index: OptimizedIndex,
    hits: Seq<RankedHit>,
    results: Seq<(i32, Score)>,
    origin: Seq<int>,
) -> bool {
    &&& origin.len() == results.len()
    &&& forall|i: int, j: int| 0 <= i < j < origin.len() ==> origin[i] < origin[j]
    &&& forall|i: int|
        0 <= i < origin.len() ==> {
            &&& 0 <= #[trigger] origin[i] < hits.len()
            &&& results[i].1.bits == hits[origin[i]].score.bits
            &&& tells(index, results[i].0, (hits[origin[i]].segment, hits[origin[i]].doc_id))
        }
    &&& forall|k: int|
        0 <= k < hits.len() && !#[trigger] origin.contains(k) ==> forall|id: i32|
            !#[trigger] tells(index, id, (hits[k].segment, hits[k].doc_id))
}

proof fn lemma_origin(hits: Seq<RankedHit>, ids: Seq<Option<i32>>) -> (origin: Seq<int>)
    requires
        ids.len() == hits.len(),
    ensures
        origin.len() == crate::search::optimized_index::resolved(hits, ids).len(),
        forall|i: int, j: int| 0 <= i < j < origin.len() ==> origin[i] < origin[j],
        forall|i: int|
            0 <= i < origin.len() ==> 0 <= #[trigger] origin[i] < hits.len() && ids[origin[i]]
                == Some(crate::search::optimized_index::resolved(hits, ids)[i].0)
                && crate::search::optimized_index::resolved(hits, ids)[i].1
                == hits[origin[i]].score,
        forall|k: int| 0 <= k < hits.len() && #[trigger] ids[k] is Some ==> origin.contains(k),
    decreases hits.len(),
{
    if hits.len() == 0 {
        Seq::empty()
    } else {
        let last = hits.len() - 1;
        let before = lemma_origin(hits.drop_last(), ids.drop_last());
        let origin = if ids[last] is Some {
            before.push(last)
        } else {
            before
        };
        assert forall|k: int| 0 <= k < hits.len() && #[trigger] ids[k] is Some implies origin.contains(k) by {
            if k < last {
                assert(ids.drop_last()[k] is Some);
                let i = choose|i: int| 0 <= i < before.len() && before[i] == k;
                assert(origin[i] == k);
            } else {
                assert(origin[origin.len() - 1] == k);
            }
        }
        assert forall|i: int| 0 <= i < origin.len() implies 0 <= #[trigger] origin[i] < hits.len()
            && ids[origin[i]] == Some(crate::search::optimized_index::resolved(hits, ids)[i].0)
            && crate::search::optimized_index::resolved(hits, ids)[i].1 == hits[origin[i]].score by {
            if i < before.len() {
                assert(origin[i] == before[i]);
                assert(ids.drop_last()[before[i]] == ids[before[i]]);
            }
        }
        origin
    }
}

/// The document that was appended is in the first segment that was not there before, as its
/// first document. Where all the segments were there before, that is reported.
pub proof fn law_appended_is_in_the_new_segment(
    before: &Vec<u128>,
    after: &Vec<u128>,
    place: Result<Place, Error>,
)
    requires
        call_ensures(locate_appended, (before, after), place),
    ensures
        place matches Ok(p) ==> p.1 == 0 && !before@.contains(p.0) && exists|i: int|
            0 <= i < after@.len() && after@[i] == p.0 && forall|k: int|
                0 <= k < i ==> before@.contains(#[trigger] after@[k]),
        place matches Err(error) ==> (forall|segment: u128| #[trigger]
            after@.contains(segment) ==> before@.contains(segment)) && error is Index,
        place is Ok <==> exists|i: int| 0 <= i < after@.len() && !before@.contains(#[trigger] after@[i]),
{
    if let Ok(p) = place {
        let i = choose|i: int| #[trigger]
            crate::search::optimized_index::first_new(before@, after@, i) && p.0 == after@[i];
        assert(after@[i] == p.0);
    } else {
        assert(crate::search::optimized_index::none_new(before@, after@));
        assert forall|segment: u128| #[trigger] after@.contains(segment) implies before@.contains(
            segment,
        ) by {
            let i = choose|i: int| 0 <= i < after@.len() && after@[i] == segment;
            assert(before@.contains(after@[i]));
        }
        assert forall|i: int| 0 <= i < after@.len() implies before@.contains(#[trigger] after@[i]) by {
            assert(after@.contains(after@[i]));
        }
    }
}

/// A ranked search asks for ten hits.
pub proof fn law_ten_hits_are_asked_for()
    ensures
        SEARCH_LIMIT == 10,
{
}

/// What an index hands out of its schema is its own schema, and no operation changes it.
pub proof fn law_the_schema_is_kept(
    new: OptimizedIndex,
    schema: TextSchema,
    own: &Schema,
    before: OptimizedIndex,
    fields: &TextSchema,
    appended: Result<Place, Error>,
    outcome: Result<(), Error>,
    added: OptimizedIndex,
    added_fields: &TextSchema,
    id: i32,
    told: Option<Place>,
    deleted: OptimizedIndex,
    deleted_fields: &TextSchema,
)
    requires
        call_ensures(OptimizedIndex::new, (), new),
        call_ensures(TextSchema::schema, (&schema,), own),
        call_ensures(OptimizedIndex::fields, (&before,), fields),
        exists|x: &mut OptimizedIndex|
            *x == before && *final(x) == added && #[trigger] call_ensures(
                OptimizedIndex::add_document,
                (x, appended),
                outcome,
            ),
        call_ensures(OptimizedIndex::fields, (&added,), added_fields),
        exists|x: &mut OptimizedIndex|
            *x == before && *final(x) == deleted && #[trigger] call_ensures(
                OptimizedIndex::delete_document,
                (x, id),
                told,
            ),
        call_ensures(OptimizedIndex::fields, (&deleted,), deleted_fields),
    ensures
        crate::search::schema::schema_fields(*own) == schema.fields(),
        *added_fields == *fields,
        *deleted_fields == *fields,
        before == new ==> fields.fields() == seq![
            ("title"@, "en_stem"@, TermRecord::Positions),
            ("body"@, "en_stem"@, TermRecord::Positions),
        ],
{
}

} // verus!
