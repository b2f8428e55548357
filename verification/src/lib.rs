//! A full-text search engine: document storage, searchable indexes over it, and
//! notifications about what happens to the documents.
pub mod channel;
pub mod clock;
pub mod engine;
pub mod ids;
pub mod laws;
pub mod memory_engine;
pub mod models;
pub mod notifications;
pub mod search;
pub mod storage;
pub mod table;
pub mod text;

pub use engine::SearchEngine;
pub use models::{DocumentEvent, Error, SearchDocument};
