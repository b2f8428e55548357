//! Finding documents by what they say.
use crate::models::Error;
use crate::table::Place;
use vstd::prelude::*;

pub mod memory;
pub mod optimized_index;
pub mod query;
pub mod schema;
pub mod tantivy_index;

verus! {

/// The bits, as an IEEE 754 single, of the number 1.
pub const ONE_BITS: u32 = 0x3f80_0000;

/// How well a document fits a query: a floating-point number, carried as the bits of its
/// IEEE 754 single-precision form.
#[derive(Debug, Clone, Copy, PartialEq, Eq, Structural)]
pub struct Score {
    pub bits: u32,
}

/// How many hits a ranked search asks for.
pub const SEARCH_LIMIT: usize = 10;

/// What a ranked search found: the segment of the index that a document is in, its number
/// there, and its score.
#[derive(Debug, Clone, Copy, PartialEq, Eq, Structural)]
pub struct RankedHit {
    pub score: Score,
    pub segment: u128,
    pub doc_id: u32,
}

impl RankedHit {
    /// Where the document is in the index.
    pub open spec fn place(self) -> Place {
        (self.segment, self.doc_id)
    }
}

/// The ids of some hits, in their order.
pub open spec fn hit_ids(hits: Seq<(i32, Score)>) -> Seq<i32> {
    hits.map_values(|hit: (i32, Score)| hit.0)
}

/// A searchable index of documents.
///
/// What an operation may answer and leave behind is for each implementation to say, in
/// `adds`, `deletes` and `finds`. One that says nothing promises nothing.
pub trait SearchIndex: Sized {
    /// The index can take one more document.
    open spec fn has_room(&self) -> bool {
        true
    }

    /// `before` becomes `after` and `outcome` is answered when a document is added.
    open spec fn adds(
        before: &Self,
        title: Seq<char>,
        body: Seq<char>,
        outcome: Result<(), Error>,
        after: &Self,
    ) -> bool {
        true
    }

    /// `before` becomes `after` and `outcome` is answered when the document `id` is deleted.
    open spec fn deletes(before: &Self, id: i32, outcome: Result<(), Error>, after: &Self) -> bool {
        true
    }

    /// `outcome` is answered to `query`.
    open spec fn finds(&self, query: Seq<char>, outcome: Result<Vec<(i32, Score)>, Error>) -> bool {
        true
    }

    /// Makes a document searchable.
    fn add_document(&mut self, title: &str, body: &str) -> (outcome: Result<(), Error>)
        requires
            old(self).has_room(),
        ensures
            Self::adds(old(self), title@, body@, outcome, final(self)),
    ;

    /// Takes the document `id` out of the index.
    fn delete_document(&mut self, id: i32) -> (outcome: Result<(), Error>)
        ensures
            Self::deletes(old(self), id, outcome, final(self)),
    ;

    /// The documents that fit `query`, each with its score.
    fn search(&self, query: &str) -> (outcome: Result<Vec<(i32, Score)>, Error>)
        ensures
            self.finds(query@, outcome),
    ;
}

} // verus!
