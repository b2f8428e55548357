//! An index kept by tantivy, with ids of its own.
//!
//! Reading and writing the index is up to the caller. Here it is settled which id each
//! document gets, which document of the index an id stands for, and what is answered to a
//! search.
use crate::models::Error;
use crate::search::schema::TextSchema;
use crate::search::{RankedHit, Score, SEARCH_LIMIT};
use crate::table::{new_places, places_entries, places_insert, places_remove, Place, PlaceTable};
use vstd::prelude::*;

verus! {

/// The ids of the documents in an index, and where in the index each is.
pub struct OptimizedIndex {
    fields: TextSchema,
    id_mapping: PlaceTable,
    next_id: i32,
}

/// An id stands for the place.
pub open spec fn stands_for(mapping: Map<i32, Place>, id: i32, place: Place) -> bool {
    mapping.contains_key(id) && mapping[id] == place
}

/// `found` is an id that stands for the place, or `None` where no id does.
pub open spec fn names(mapping: Map<i32, Place>, place: Place, found: Option<i32>) -> bool {
    match found {
        Some(id) => stands_for(mapping, id, place),
        None => forall|id: i32| !#[trigger] stands_for(mapping, id, place),
    }
}

/// `ids` has for each hit an id that stands for it, or `None` where no id does.
pub open spec fn resolves(
    mapping: Map<i32, Place>,
    hits: Seq<RankedHit>,
    ids: Seq<Option<i32>>,
) -> bool {
    &&& ids.len() == hits.len()
    &&& forall|i: int| 0 <= i < hits.len() ==> names(mapping, hits[i].place(), #[trigger] ids[i])
}

/// The hits that have an id, each with its score, in their order.
pub open spec fn resolved(hits: Seq<RankedHit>, ids: Seq<Option<i32>>) -> Seq<(i32, Score)>
    decreases hits.len(),
{
    if hits.len() == 0 {
        Seq::empty()
    } else {
        let before = resolved(hits.drop_last(), ids.drop_last());
        match ids.last() {
            Some(id) => before.push((id, hits.last().score)),
            None => before,
        }
    }
}

/// `results` may be answered to a query for which `hits` were found.
pub open spec fn answers(
    mapping: Map<i32, Place>,
    hits: Seq<RankedHit>,
    results: Seq<(i32, Score)>,
) -> bool {
    exists|ids: Seq<Option<i32>>|
        #[trigger] resolves(mapping, hits, ids) && results == resolved(hits, ids)
}

impl OptimizedIndex {
    /// The schema of the index.
    pub closed spec fn schema(self) -> TextSchema {
        self.fields
    }

    /// The place in the index of the document with each id.
    pub closed spec fn mapping(self) -> Map<i32, Place> {
        crate::table::places(self.id_mapping)
    }

    /// The id that the next document will get.
    pub closed spec fn next(self) -> i32 {
        self.next_id
    }

    /// Ids are given out from 1 upwards.
    pub open spec fn wf(self) -> bool {
        &&& self.next() >= 1
        &&& forall|id: i32| #[trigger] self.mapping().contains_key(id) ==> 1 <= id < self.next()
    }

    /// The schema of the index: a title and a body, which both go through tantivy's English
    /// stemmer.
    pub fn create_schema() -> (schema: TextSchema)
        ensures
            schema.has_tokenizer("en_stem"@),
    {
        TextSchema::with_tokenizer("en_stem")
    }

    /// An index without documents.
    pub fn new() -> (index: Self)
        ensures
            index.schema().has_tokenizer("en_stem"@),
            index.mapping() == Map::<i32, Place>::empty(),
            index.next() == 1,
            index.wf(),
    {
        OptimizedIndex { fields: Self::create_schema(), id_mapping: new_places(), next_id: 1 }
    }

    /// The schema of the index.
    pub fn fields(&self) -> (fields: &TextSchema)
        ensures
            *fields == self.schema(),
    {
        &self.fields
    }

    /// Whether there is an id left for another document.
    pub fn has_next_id(&self) -> (left: bool)
        ensures
            left == (self.next() < i32::MAX),
    {
        self.next_id < i32::MAX
    }

    /// Gives out an id.
    pub fn get_next_id(&mut self) -> (id: i32)
        requires
            old(self).next() < i32::MAX,
        ensures
            id == old(self).next(),
            final(self).next() == old(self).next() + 1,
            final(self).mapping() == old(self).mapping(),
            final(self).schema() == old(self).schema(),
            old(self).wf() ==> final(self).wf(),
    {
        let current: i32 = self.next_id;
        self.next_id = current + 1;
        current
    }

    /// Gives an id to a document that the caller tried to append to the index. `appended` is
    /// the place where the index has the document, or the failure. The id stands for that
    /// place. A failure uses up the id.
    pub fn add_document(&mut self, appended: Result<Place, Error>) -> (outcome: Result<(), Error>)
        requires
            old(self).next() < i32::MAX,
        ensures
            final(self).next() == old(self).next() + 1,
            final(self).schema() == old(self).schema(),
            match appended {
                Ok(place) => outcome is Ok && final(self).mapping() == old(self).mapping().insert(
                    old(self).next(),
                    place,
                ),
                Err(error) => outcome == Err::<(), Error>(error) && final(self).mapping() == old(
                    self,
                ).mapping(),
            },
            old(self).wf() ==> final(self).wf(),
    {
        let id = self.get_next_id();
        match appended {
            Ok(place) => {
                places_insert(&mut self.id_mapping, id, place);
                Ok(())
            },
            Err(error) => Err(error),
        }
    }

    /// Forgets an id. Returns the place of the document that the caller is to delete from the
    /// index, or `None` where the id stands for nothing.
    pub fn delete_document(&mut self, id: i32) -> (place: Option<Place>)
        ensures
            final(self).mapping() == old(self).mapping().remove(id),
            final(self).next() == old(self).next(),
            final(self).schema() == old(self).schema(),
            place == if old(self).mapping().contains_key(id) {
                Some(old(self).mapping()[id])
            } else {
                None
            },
            old(self).wf() ==> final(self).wf(),
    {
        places_remove(&mut self.id_mapping, id)
    }

    /// What is answered to a query for which these hits were found: each hit with an id that
    /// stands for it, in the order of the hits, without those that no id stands for. Where
    /// several ids stand for a hit, any of them may be answered.
    pub fn search(&self, hits: &Vec<RankedHit>) -> (results: Vec<(i32, Score)>)
        ensures
            answers(self.mapping(), hits@, results@),
            hits@.len() <= SEARCH_LIMIT ==> results@.len() <= SEARCH_LIMIT,
    {
        let entries = places_entries(&self.id_mapping);
        let mut results: Vec<(i32, Score)> = Vec::new();
        let ghost mut ids: Seq<Option<i32>> = Seq::empty();
        let mut n: usize = 0;
        while n < hits.len()
            invariant
                n <= hits@.len(),
                lists(self.mapping(), entries@),
                resolves(self.mapping(), hits@.take(n as int), ids),
                results@ == resolved(hits@.take(n as int), ids),
            decreases hits@.len() - n,
        {
            let hit = &hits[n];
            let found = find_id(&entries, (hit.segment, hit.doc_id));
            let ghost before = ids;
            proof {
                lemma_found(self.mapping(), entries@, hit.place(), found);
                ids = ids.push(found);
                assert(hits@.take(n + 1).drop_last() == hits@.take(n as int));
                assert(ids.drop_last() == before);
                assert forall|i: int| 0 <= i < n + 1 implies names(
                    self.mapping(),
                    hits@.take(n + 1)[i].place(),
                    #[trigger] ids[i],
                ) by {
                    if i < n {
                        assert(ids[i] == before[i]);
                        assert(hits@.take(n + 1)[i] == hits@.take(n as int)[i]);
                    }
                }
            }
            if let Some(id) = found {
                results.push((id, hit.score));
            }
            n += 1;
        }
        assert(hits@.take(n as int) == hits@);
        proof {
            law_no_more_answers_than_hits(self.mapping(), hits@, results@);
        }
        results
    }
}

/// The first segment of `after` that is not in `before` is at `i`.
pub open spec fn first_new(before: Seq<u128>, after: Seq<u128>, i: int) -> bool {
    &&& 0 <= i < after.len()
    &&& !before.contains(after[i])
    &&& forall|k: int| 0 <= k < i ==> before.contains(#[trigger] after[k])
}

/// All segments of `after` are in `before`.
pub open spec fn none_new(before: Seq<u128>, after: Seq<u128>) -> bool {
    forall|i: int| 0 <= i < after.len() ==> before.contains(#[trigger] after[i])
}

/// Where an index has a document that alone was appended to it between two looks at its
/// segments: the index has put it into a segment of its own, as number 0.
pub fn locate_appended(before: &Vec<u128>, after: &Vec<u128>) -> (place: Result<Place, Error>)
    ensures
        match place {
            Ok((segment, number)) => number == 0 && exists|i: int| #[trigger]
                first_new(before@, after@, i) && segment == after@[i],
            Err(error) => {
                &&& none_new(before@, after@)
                &&& error matches Error::Index(text)
                &&& text@ == "The index has no new segment"@
            },
        },
{
    let mut n: usize = 0;
    while n < after.len()
        invariant
            n <= after@.len(),
            forall|k: int| 0 <= k < n ==> before@.contains(#[trigger] after@[k]),
        decreases after@.len() - n,
    {
        if !is_among(before, after[n]) {
            assert(first_new(before@, after@, n as int));
            return Ok((after[n], 0));
        }
        n += 1;
    }
    Err(Error::Index("The index has no new segment".to_owned()))
}

/// Whether a segment is among others.
fn is_among(segments: &Vec<u128>, segment: u128) -> (found: bool)
    ensures
        found == segments@.contains(segment),
{
    let mut n: usize = 0;
    while n < segments.len()
        invariant
            n <= segments@.len(),
            forall|k: int| 0 <= k < n ==> #[trigger] segments@[k] != segment,
        decreases segments@.len() - n,
    {
        if segments[n] == segment {
            assert(segments@[n as int] == segment);
            return true;
        }
        n += 1;
    }
    false
}

/// The entries are those of the mapping.
spec fn lists(mapping: Map<i32, Place>, entries: Seq<(i32, Place)>) -> bool {
    &&& forall|i: int|
        #![trigger entries[i]]
        0 <= i < entries.len() ==> stands_for(mapping, entries[i].0, entries[i].1)
    &&& forall|id: i32| #[trigger]
        mapping.contains_key(id) ==> exists|i: int| 0 <= i < entries.len() && entries[i].0 == id
}

/// `found` is an id that has the place among the entries, or `None` where no id has it.
spec fn is_found(entries: Seq<(i32, Place)>, place: Place, found: Option<i32>) -> bool {
    match found {
        Some(id) => entries.contains((id, place)),
        None => forall|i: int| 0 <= i < entries.len() ==> (#[trigger] entries[i]).1 != place,
    }
}

proof fn lemma_found(
    mapping: Map<i32, Place>,
    entries: Seq<(i32, Place)>,
    place: Place,
    found: Option<i32>,
)
    requires
        lists(mapping, entries),
        is_found(entries, place, found),
    ensures
        names(mapping, place, found),
{
    assert forall|id: i32| found is None implies !#[trigger] stands_for(mapping, id, place) by {
        if stands_for(mapping, id, place) {
            let i = choose|i: int| 0 <= i < entries.len() && entries[i].0 == id;
            assert(stands_for(mapping, entries[i].0, entries[i].1));
        }
    }
}

/// Looks among the entries for an id that has the place.
fn find_id(entries: &Vec<(i32, Place)>, place: Place) -> (found: Option<i32>)
    ensures
        is_found(entries@, place, found),
{
    let mut n: usize = 0;
    while n < entries.len()
        invariant
            n <= entries@.len(),
            forall|i: int| 0 <= i < n ==> (#[trigger] entries@[i]).1 != place,
        decreases entries@.len() - n,
    {
        let other = entries[n].1;
        if other.0 == place.0 && other.1 == place.1 {
            assert(entries@[n as int] == (entries@[n as int].0, place));
            return Some(entries[n].0);
        }
        n += 1;
    }
    None
}

/// Each of the results is the hit that `origin` has for it, and the hits come in their order.
pub open spec fn taken_in_order(
    mapping: Map<i32, Place>,
    hits: Seq<RankedHit>,
    results: Seq<(i32, Score)>,
    origin: Seq<int>,
) -> bool {
    &&& origin.len() == results.len()
    &&& forall|i: int|
        0 <= i < origin.len() ==> {
            &&& 0 <= #[trigger] origin[i] < hits.len()
            &&& stands_for(mapping, results[i].0, hits[origin[i]].place())
            &&& results[i].1 == hits[origin[i]].score
        }
    &&& forall|i: int, j: int| 0 <= i < j < origin.len() ==> origin[i] < origin[j]
}

proof fn lemma_taken_in_order(
    mapping: Map<i32, Place>,
    hits: Seq<RankedHit>,
    ids: Seq<Option<i32>>,
) -> (origin: Seq<int>)
    requires
        resolves(mapping, hits, ids),
    ensures
        taken_in_order(mapping, hits, resolved(hits, ids), origin),
        forall|k: int| 0 <= k < hits.len() && #[trigger] ids[k] is Some ==> origin.contains(k),
    decreases hits.len(),
{
    if hits.len() == 0 {
        Seq::empty()
    } else {
        let last = hits.len() - 1;
        let shorter = ids.drop_last();
        assert forall|i: int| 0 <= i < last implies names(
            mapping,
            hits.drop_last()[i].place(),
            #[trigger] shorter[i],
        ) by {
            assert(shorter[i] == ids[i]);
        }
        let before = lemma_taken_in_order(mapping, hits.drop_last(), shorter);
        let origin = if ids[last] is Some {
            before.push(last)
        } else {
            before
        };
        assert(names(mapping, hits[last].place(), ids[last]));
        assert forall|k: int| 0 <= k < hits.len() && #[trigger] ids[k] is Some implies origin.contains(k) by {
            if k < last {
                assert(shorter[k] is Some);
                let i = choose|i: int| 0 <= i < before.len() && before[i] == k;
                assert(origin[i] == k);
            } else {
                assert(origin[origin.len() - 1] == k);
            }
        }
        assert forall|i: int| 0 <= i < origin.len() implies {
            &&& 0 <= #[trigger] origin[i] < hits.len()
            &&& stands_for(mapping, resolved(hits, ids)[i].0, hits[origin[i]].place())
            &&& resolved(hits, ids)[i].1 == hits[origin[i]].score
        } by {
            if i < before.len() {
                assert(origin[i] == before[i]);
            }
        }
        origin
    }
}

/// The answers come in the order of the hits, each with the score of its hit and an id that
/// stands for it.
pub proof fn law_answers_keep_the_order(
    mapping: Map<i32, Place>,
    hits: Seq<RankedHit>,
    results: Seq<(i32, Score)>,
)
    requires
        answers(mapping, hits, results),
    ensures
        exists|origin: Seq<int>| taken_in_order(mapping, hits, results, origin),
{
    let ids = choose|ids: Seq<Option<i32>>|
        #[trigger] resolves(mapping, hits, ids) && results == resolved(hits, ids);
    let origin = lemma_taken_in_order(mapping, hits, ids);
    assert(taken_in_order(mapping, hits, results, origin));
}

/// Where the hits are ranked, the answers are ranked in the same way: whatever holds between
/// the scores of any two hits, taken in their order, holds between those of any two answers.
pub proof fn law_answers_keep_the_ranking(
    mapping: Map<i32, Place>,
    hits: Seq<RankedHit>,
    results: Seq<(i32, Score)>,
    ranked: spec_fn(Score, Score) -> bool,
)
    requires
        answers(mapping, hits, results),
        forall|k: int, l: int|
            0 <= k < l < hits.len() ==> ranked((#[trigger] hits[k]).score, (#[trigger] hits[l]).score),
    ensures
        forall|i: int, j: int|
            0 <= i < j < results.len() ==> ranked(
                (#[trigger] results[i]).1,
                (#[trigger] results[j]).1,
            ),
{
    law_answers_keep_the_order(mapping, hits, results);
    let origin = choose|origin: Seq<int>| taken_in_order(mapping, hits, results, origin);
    assert forall|i: int, j: int| 0 <= i < j < results.len() implies ranked(
        (#[trigger] results[i]).1,
        (#[trigger] results[j]).1,
    ) by {
        assert(0 <= origin[i] < hits.len() && 0 <= origin[j] < hits.len());
        assert(origin[i] < origin[j]);
        assert(ranked(hits[origin[i]].score, hits[origin[j]].score));
    }
}

/// What is found stands for an id that is known: every answer is an id that was given to a
/// document and not forgotten since.
pub proof fn law_answers_are_known(
    mapping: Map<i32, Place>,
    hits: Seq<RankedHit>,
    results: Seq<(i32, Score)>,
    i: int,
)
    requires
        answers(mapping, hits, results),
        0 <= i < results.len(),
    ensures
        mapping.contains_key(results[i].0),
        exists|k: int|
            0 <= k < hits.len() && (#[trigger] hits[k]).place() == mapping[results[i].0]
                && hits[k].score == results[i].1,
{
    law_answers_keep_the_order(mapping, hits, results);
    let origin = choose|origin: Seq<int>| taken_in_order(mapping, hits, results, origin);
    assert(0 <= origin[i] < hits.len());
    assert(hits[origin[i]].place() == mapping[results[i].0]);
}

/// A document just added is answered wherever the index finds it, as long as no other id
/// stands for its place.
pub proof fn law_added_is_answered(
    mapping: Map<i32, Place>,
    id: i32,
    place: Place,
    hits: Seq<RankedHit>,
    results: Seq<(i32, Score)>,
    k: int,
)
    requires
        forall|other: i32| other != id ==> !#[trigger] stands_for(mapping, other, place),
        answers(mapping.insert(id, place), hits, results),
        0 <= k < hits.len(),
        hits[k].place() == place,
    ensures
        results.contains((id, hits[k].score)),
{
    let after = mapping.insert(id, place);
    let ids = choose|ids: Seq<Option<i32>>|
        #[trigger] resolves(after, hits, ids) && results == resolved(hits, ids);
    let origin = lemma_taken_in_order(after, hits, ids);
    assert(names(after, place, ids[k]));
    assert(stands_for(after, id, place));
    assert(ids[k] is Some);
    let i = choose|i: int| 0 <= i < origin.len() && origin[i] == k;
    assert(stands_for(after, results[i].0, hits[origin[i]].place()));
    if results[i].0 != id {
        assert(stands_for(mapping, results[i].0, place));
    }
    assert(results[i] == (id, hits[k].score));
}

/// No more is answered than was found.
pub proof fn law_no_more_answers_than_hits(
    mapping: Map<i32, Place>,
    hits: Seq<RankedHit>,
    results: Seq<(i32, Score)>,
)
    requires
        answers(mapping, hits, results),
    ensures
        results.len() <= hits.len(),
{
    let ids = choose|ids: Seq<Option<i32>>|
        #[trigger] resolves(mapping, hits, ids) && results == resolved(hits, ids);
    lemma_resolved_len(hits, ids);
}

proof fn lemma_resolved_len(hits: Seq<RankedHit>, ids: Seq<Option<i32>>)
    requires
        ids.len() == hits.len(),
    ensures
        resolved(hits, ids).len() <= hits.len(),
        (forall|k: int| 0 <= k < ids.len() ==> #[trigger] ids[k] is Some) ==> resolved(hits, ids).len()
            == hits.len(),
    decreases hits.len(),
{
    if hits.len() > 0 {
        lemma_resolved_len(hits.drop_last(), ids.drop_last());
        if forall|k: int| 0 <= k < ids.len() ==> #[trigger] ids[k] is Some {
            assert forall|k: int| 0 <= k < ids.drop_last().len() implies #[trigger] ids.drop_last()[k] is Some by {
                assert(ids[k] is Some);
            }
            assert(ids[ids.len() - 1] is Some);
        }
    }
}

/// Where every hit is a document that some id stands for, none is left out.
pub proof fn law_known_hits_are_all_answered(
    mapping: Map<i32, Place>,
    hits: Seq<RankedHit>,
    results: Seq<(i32, Score)>,
)
    requires
        answers(mapping, hits, results),
        forall|k: int|
            0 <= k < hits.len() ==> exists|id: i32|
                stands_for(mapping, id, (#[trigger] hits[k]).place()),
    ensures
        results.len() == hits.len(),
{
    let ids = choose|ids: Seq<Option<i32>>|
        #[trigger] resolves(mapping, hits, ids) && results == resolved(hits, ids);
    assert forall|k: int| 0 <= k < ids.len() implies #[trigger] ids[k] is Some by {
        let id = choose|id: i32| stands_for(mapping, id, (#[trigger] hits[k]).place());
        assert(stands_for(mapping, id, hits[k].place()));
    }
    lemma_resolved_len(hits, ids);
}

/// No two ids stand for the same place.
pub open spec fn distinct(mapping: Map<i32, Place>) -> bool {
    forall|a: i32, b: i32|
        #![trigger mapping.contains_key(a), mapping.contains_key(b)]
        mapping.contains_key(a) && mapping.contains_key(b) && a != b ==> mapping[a] != mapping[b]
}

/// A document in a segment that is new to the index gets a place that no id stands for, so
/// the ids go on standing for different places.
pub proof fn law_new_segment_keeps_places_distinct(
    mapping: Map<i32, Place>,
    before: Seq<u128>,
    after: Seq<u128>,
    i: int,
    id: i32,
)
    requires
        distinct(mapping),
        forall|known: i32| #[trigger]
            mapping.contains_key(known) ==> before.contains(mapping[known].0),
        first_new(before, after, i),
    ensures
        distinct(mapping.insert(id, (after[i], 0))),
{
}

/// Forgetting an id keeps the places distinct.
pub proof fn law_deleting_keeps_places_distinct(mapping: Map<i32, Place>, id: i32)
    requires
        distinct(mapping),
    ensures
        distinct(mapping.remove(id)),
{
}

/// Where ids stand for different places, what is answered to given hits is always the same.
pub proof fn law_answers_are_determined(
    mapping: Map<i32, Place>,
    hits: Seq<RankedHit>,
    results: Seq<(i32, Score)>,
    others: Seq<(i32, Score)>,
)
    requires
        distinct(mapping),
        answers(mapping, hits, results),
        answers(mapping, hits, others),
    ensures
        results == others,
{
    let ids = choose|ids: Seq<Option<i32>>|
        #[trigger] resolves(mapping, hits, ids) && results == resolved(hits, ids);
    let other_ids = choose|ids: Seq<Option<i32>>|
        #[trigger] resolves(mapping, hits, ids) && others == resolved(hits, ids);
    assert forall|k: int| 0 <= k < hits.len() implies ids[k] == other_ids[k] by {
        let place = hits[k].place();
        assert(names(mapping, place, ids[k]));
        assert(names(mapping, place, other_ids[k]));
        if let Some(id) = ids[k] {
            assert(stands_for(mapping, id, place));
        }
        if let Some(id) = other_ids[k] {
            assert(stands_for(mapping, id, place));
        }
    }
    assert(ids =~= other_ids);
}

/// Deleting a document does not change what is answered to hits on other documents.
pub proof fn law_delete_keeps_other_answers(
    mapping: Map<i32, Place>,
    id: i32,
    hits: Seq<RankedHit>,
    results: Seq<(i32, Score)>,
)
    requires
        forall|k: int| 0 <= k < hits.len() ==> !stands_for(mapping, id, (#[trigger] hits[k]).place()),
    ensures
        answers(mapping.remove(id), hits, results) <==> answers(mapping, hits, results),
{
    let after = mapping.remove(id);
    assert forall|ids: Seq<Option<i32>>| #[trigger] resolves(after, hits, ids) <==> resolves(
        mapping,
        hits,
        ids,
    ) by {
        if ids.len() == hits.len() {
            assert forall|k: int| 0 <= k < hits.len() implies (names(
                after,
                hits[k].place(),
                #[trigger] ids[k],
            ) <==> names(mapping, hits[k].place(), ids[k])) by {
                lemma_other_names(mapping, id, hits[k].place(), ids[k]);
            }
        }
    }
    if answers(after, hits, results) {
        let ids = choose|ids: Seq<Option<i32>>|
            #[trigger] resolves(after, hits, ids) && results == resolved(hits, ids);
        assert(resolves(mapping, hits, ids));
    }
    if answers(mapping, hits, results) {
        let ids = choose|ids: Seq<Option<i32>>|
            #[trigger] resolves(mapping, hits, ids) && results == resolved(hits, ids);
        assert(resolves(after, hits, ids));
    }
}

proof fn lemma_other_names(mapping: Map<i32, Place>, id: i32, place: Place, found: Option<i32>)
    requires
        !stands_for(mapping, id, place),
    ensures
        names(mapping.remove(id), place, found) <==> names(mapping, place, found),
{
    let after = mapping.remove(id);
    assert forall|other: i32| #[trigger] stands_for(after, other, place) <==> stands_for(
        mapping,
        other,
        place,
    ) by {
    }
    if found is None {
        if names(after, place, found) {
            assert forall|other: i32| !#[trigger] stands_for(mapping, other, place) by {
                assert(!stands_for(after, other, place));
            }
        }
        if names(mapping, place, found) {
            assert forall|other: i32| !#[trigger] stands_for(after, other, place) by {
                assert(!stands_for(mapping, other, place));
            }
        }
    }
}

/// An id that was forgotten is not answered to any search, whatever the index still finds.
pub proof fn law_deleted_is_not_found(
    mapping: Map<i32, Place>,
    id: i32,
    hits: Seq<RankedHit>,
    results: Seq<(i32, Score)>,
)
    requires
        answers(mapping.remove(id), hits, results),
    ensures
        !crate::search::hit_ids(results).contains(id),
{
    let ids = crate::search::hit_ids(results);
    if ids.contains(id) {
        let i = choose|i: int| 0 <= i < ids.len() && ids[i] == id;
        law_answers_are_known(mapping.remove(id), hits, results, i);
    }
}

/// A new document never takes the id of another.
pub proof fn law_new_id_is_unused(index: OptimizedIndex)
    requires
        index.wf(),
    ensures
        !index.mapping().contains_key(index.next()),
{
}

} // verus!
