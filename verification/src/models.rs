//! The documents the engine keeps, the events it announces, and its errors.
use vstd::prelude::*;

verus! {

/// A stored document.
#[derive(Debug, PartialEq)]
pub struct SearchDocument {
    pub id: i32,
    pub title: String,
    pub body: String,
}

impl Clone for SearchDocument {
    fn clone(&self) -> (copy: Self)
        ensures
            copy == *self,
    {
        SearchDocument { id: self.id, title: self.title.clone(), body: self.body.clone() }
    }
}

/// What a document amounts to in specifications.
pub struct DocumentView {
    pub id: i32,
    pub title: Seq<char>,
    pub body: Seq<char>,
}

impl View for SearchDocument {
    type V = DocumentView;

    open spec fn view(&self) -> DocumentView {
        DocumentView { id: self.id, title: self.title@, body: self.body@ }
    }
}

/// Something that happened to a document.
#[derive(Debug, PartialEq)]
pub enum DocumentEvent {
    Created(SearchDocument),
    Updated(SearchDocument),
    Deleted(i32),
}

impl Clone for DocumentEvent {
    fn clone(&self) -> (copy: Self)
        ensures
            copy == *self,
    {
        match self {
            DocumentEvent::Created(doc) => DocumentEvent::Created(doc.clone()),
            DocumentEvent::Updated(doc) => DocumentEvent::Updated(doc.clone()),
            DocumentEvent::Deleted(id) => DocumentEvent::Deleted(*id),
        }
    }
}

/// What an event amounts to in specifications.
pub enum DocumentEventView {
    Created(DocumentView),
    Updated(DocumentView),
    Deleted(i32),
}

impl View for DocumentEvent {
    type V = DocumentEventView;

    open spec fn view(&self) -> DocumentEventView {
        match self {
            DocumentEvent::Created(doc) => DocumentEventView::Created(doc@),
            DocumentEvent::Updated(doc) => DocumentEventView::Updated(doc@),
            DocumentEvent::Deleted(id) => DocumentEventView::Deleted(*id),
        }
    }
}

/// Why an operation on documents failed.
#[derive(Debug, PartialEq)]
pub enum Error {
    /// No document has the requested id.
    DocumentNotFound,
    /// The storage behind the engine failed; the text is its own report.
    Storage(String),
    /// The index behind the engine failed; the text is its own report.
    Index(String),
}

impl Error {
    /// The text that `message` returns.
    pub open spec fn spec_message(self) -> Seq<char> {
        match self {
            Error::DocumentNotFound => "Document not found"@,
            Error::Storage(report) => report@,
            Error::Index(report) => report@,
        }
    }

    /// The failure in words.
    pub fn message(&self) -> (text: String)
        ensures
            text@ == self.spec_message(),
    {
        match self {
            Error::DocumentNotFound => String::from_str("Document not found"),
            Error::Storage(report) => report.clone(),
            Error::Index(report) => report.clone(),
        }
    }
}

} // verus!
