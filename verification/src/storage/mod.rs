//! Where documents are kept.
use crate::models::{Error, SearchDocument};
use vstd::prelude::*;

pub mod memory;

verus! {

/// A keeper of documents.
///
/// What an operation may answer and leave behind is for each implementation to say, in
/// `adds`, `reads` and `deletes`. One that says nothing promises nothing.
pub trait DocumentStorage: Sized {
    /// The storage can take one more document.
    open spec fn has_room(&self) -> bool {
        true
    }

    /// `before` becomes `after` and `outcome` is answered when a document is added.
    open spec fn adds(
        before: &Self,
        title: Seq<char>,
        body: Seq<char>,
        outcome: Result<i32, Error>,
        after: &Self,
    ) -> bool {
        true
    }

    /// `outcome` is answered when the document `id` is read.
    open spec fn reads(&self, id: i32, outcome: Result<SearchDocument, Error>) -> bool {
        true
    }

    /// `before` becomes `after` and `outcome` is answered when the document `id` is deleted.
    open spec fn deletes(before: &Self, id: i32, outcome: Result<(), Error>, after: &Self) -> bool {
        true
    }

    /// Stores a document and returns the id it was given.
    fn add_document(&mut self, title: &str, body: &str) -> (outcome: Result<i32, Error>)
        requires
            old(self).has_room(),
        ensures
            Self::adds(old(self), title@, body@, outcome, final(self)),
    ;

    /// Returns the document `id`.
    fn get_document(&self, id: i32) -> (outcome: Result<SearchDocument, Error>)
        ensures
            self.reads(id, outcome),
    ;

    /// Removes the document `id`.
    fn delete_document(&mut self, id: i32) -> (outcome: Result<(), Error>)
        ensures
            Self::deletes(old(self), id, outcome, final(self)),
    ;
}

} // verus!
