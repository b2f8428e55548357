//! An index kept by tantivy, whose own document numbers serve as ids.
//!
//! Reading and writing the index is up to the caller; what goes into it and what comes out
//! is settled here.
use crate::models::Error;
use crate::search::schema::TextSchema;
use crate::search::{RankedHit, Score, SEARCH_LIMIT};
use tantivy::TantivyDocument;
use vstd::prelude::*;

verus! {

/// How the documents of a tantivy index are laid out.
pub struct TantivyIndex {
    pub fields: TextSchema,
}

/// The id under which a document is found: its number, wrapped into an `i32`.
pub open spec fn wrapped_id(doc_id: u32) -> int {
    if doc_id <= i32::MAX {
        doc_id as int
    } else {
        doc_id - 0x1_0000_0000
    }
}

/// A document number as an id.
fn id_of(doc_id: u32) -> (id: i32)
    ensures
        id == wrapped_id(doc_id),
{
    let id: i32 = doc_id as i32;
    assert(doc_id as i32 == if doc_id <= 0x7fff_ffff {
        doc_id as int
    } else {
        doc_id - 0x1_0000_0000
    }) by (bit_vector);
    id
}

impl TantivyIndex {
    /// An index whose texts go through tantivy's default tokenizer.
    pub fn new() -> (index: Self)
        ensures
            index.fields.has_tokenizer("default"@),
    {
        TantivyIndex { fields: TextSchema::with_tokenizer("default") }
    }

    /// What is put into the index for a document.
    pub fn create_document(&self, title: &str, body: &str) -> (document: TantivyDocument)
        ensures
            crate::search::schema::document_texts(document) == seq![
                (self.fields.title(), title@),
                (self.fields.body(), body@),
            ],
    {
        self.fields.create_document(title, body)
    }

    /// Does nothing: the index cannot tell which of its documents an id stands for.
    pub fn delete_document(&mut self, id: i32) -> (outcome: Result<(), Error>)
        ensures
            outcome is Ok,
            *final(self) == *old(self),
    {
        Ok(())
    }

    /// What is answered to a query for which these hits were found.
    pub fn search_results(&self, hits: &Vec<RankedHit>) -> (results: Vec<(i32, Score)>)
        ensures
            results@.len() == hits@.len(),
            hits@.len() <= SEARCH_LIMIT ==> results@.len() <= SEARCH_LIMIT,
            forall|i: int|
                0 <= i < hits@.len() ==> (#[trigger] results@[i]).0 == wrapped_id(hits@[i].doc_id)
                    && results@[i].1 == hits@[i].score,
    {
        let mut results: Vec<(i32, Score)> = Vec::new();
        let mut n: usize = 0;
        while n < hits.len()
            invariant
                n <= hits@.len(),
                results@.len() == n,
                forall|i: int|
                    0 <= i < n ==> (#[trigger] results@[i]).0 == wrapped_id(hits@[i].doc_id)
                        && results@[i].1 == hits@[i].score,
            decreases hits@.len() - n,
        {
            results.push((id_of(hits[n].doc_id), hits[n].score));
            n += 1;
        }
        results
    }
}

} // verus!
