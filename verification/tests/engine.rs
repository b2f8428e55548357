use full_text_search::search::memory::MemoryIndex;
use full_text_search::search::{Score, SearchIndex};
use full_text_search::storage::memory::MemoryStorage;
use full_text_search::storage::DocumentStorage;
use full_text_search::{DocumentEvent, Error, SearchDocument, SearchEngine};
use futures::executor::block_on;
use futures::{FutureExt, StreamExt};

#[test]
fn test_search_engine_operations() {
    let storage = MemoryStorage::new();
    let index = MemoryIndex::new();
    let mut engine = SearchEngine::new(storage, index);

    // Add documents
    let id1 = engine.add_document("Rust Programming", "Learn Rust language").unwrap();
    let id2 = engine.add_document("Python Guide", "Python programming tutorial").unwrap();

    // Test document retrieval
    let doc1 = engine.get_document(id1).unwrap();
    assert_eq!(doc1.title, "Rust Programming");

    // Test search
    let results = engine.search("rust").unwrap();
    assert_eq!(results.len(), 1);
    assert_eq!(results[0].id, id1);

    // Test delete
    engine.delete_document(id2).unwrap();
    let results = engine.search("python").unwrap();
    assert_eq!(results.len(), 0);
}

#[test]
fn test_notifications() {
    let storage = MemoryStorage::new();
    let index = MemoryIndex::new();
    let mut engine = SearchEngine::new(storage, index);

    let mut notifications = engine.subscribe();

    // Add a document
    let id = engine.add_document("Test Doc", "Test content").unwrap();

    match block_on(notifications.next()) {
        Some(Ok(DocumentEvent::Created(doc))) => {
            assert_eq!(doc.id, id);
            assert_eq!(doc.title, "Test Doc");
        }
        _ => panic!("Expected Created event"),
    }

    // Delete the document
    engine.delete_document(id).unwrap();

    match block_on(notifications.next()) {
        Some(Ok(DocumentEvent::Deleted(deleted_id))) => {
            assert_eq!(deleted_id, id);
        }
        _ => panic!("Expected Deleted event"),
    }
}

#[test]
fn a_late_subscriber_misses_what_came_before() {
    let mut engine = SearchEngine::new(MemoryStorage::new(), MemoryIndex::new());
    engine.add_document("first", "").unwrap();
    let mut notifications = engine.subscribe();
    engine.add_document("second", "").unwrap();
    match notifications.next().now_or_never() {
        Some(Some(Ok(DocumentEvent::Created(doc)))) => assert_eq!(doc.title, "second"),
        _ => panic!("Expected Created event"),
    }
    assert!(notifications.next().now_or_never().is_none());
}

#[test]
fn a_deleted_document_can_be_neither_read_nor_found() {
    let mut engine = SearchEngine::new(MemoryStorage::new(), MemoryIndex::new());
    let id = engine.add_document("Only", "one").unwrap();
    assert_eq!(engine.search("ONLY").unwrap(), vec![engine.get_document(id).unwrap()]);
    engine.delete_document(id).unwrap();
    assert_eq!(engine.get_document(id), Err(Error::DocumentNotFound));
    assert_eq!(engine.search("only").unwrap(), vec![]);
}

#[test]
fn a_search_is_exact() {
    let mut engine = SearchEngine::new(MemoryStorage::new(), MemoryIndex::new());
    let a = engine.add_document("Trees", "oak and elm").unwrap();
    let b = engine.add_document("Oak tables", "furniture").unwrap();
    engine.add_document("Stone", "granite").unwrap();
    let mut ids: Vec<i32> = engine.search("OAK").unwrap().iter().map(|doc| doc.id).collect();
    ids.sort();
    assert_eq!(ids, vec![a, b]);
    let mut lower: Vec<i32> = engine.search("oak").unwrap().iter().map(|doc| doc.id).collect();
    lower.sort();
    assert_eq!(lower, ids);
}

/// A storage that fails at everything but reading the document 1.
struct BrokenStorage;

impl DocumentStorage for BrokenStorage {
    fn add_document(&mut self, _title: &str, _body: &str) -> Result<i32, Error> {
        Err(Error::Storage("no room".to_string()))
    }

    fn get_document(&self, id: i32) -> Result<SearchDocument, Error> {
        if id == 1 {
            Ok(SearchDocument { id, title: "kept".to_string(), body: String::new() })
        } else {
            Err(Error::Storage("no disk".to_string()))
        }
    }

    fn delete_document(&mut self, _id: i32) -> Result<(), Error> {
        Err(Error::Storage("read only".to_string()))
    }
}

/// An index that answers whatever it was made with.
struct FixedIndex {
    hits: Result<Vec<i32>, String>,
    added: usize,
}

impl SearchIndex for FixedIndex {
    fn add_document(&mut self, _title: &str, _body: &str) -> Result<(), Error> {
        self.added += 1;
        match &self.hits {
            Ok(_) => Ok(()),
            Err(report) => Err(Error::Index(report.clone())),
        }
    }

    fn delete_document(&mut self, _id: i32) -> Result<(), Error> {
        match &self.hits {
            Ok(_) => Ok(()),
            Err(report) => Err(Error::Index(report.clone())),
        }
    }

    fn search(&self, _query: &str) -> Result<Vec<(i32, Score)>, Error> {
        match &self.hits {
            Ok(ids) => Ok(ids.iter().map(|id| (*id, Score { bits: 0 })).collect()),
            Err(report) => Err(Error::Index(report.clone())),
        }
    }
}

#[test]
fn the_first_failure_is_the_answer_and_nothing_is_announced() {
    let mut engine = SearchEngine::new(
        BrokenStorage,
        FixedIndex { hits: Ok(vec![2, 1, 3, 1]), added: 0 },
    );
    let mut notifications = engine.subscribe();
    assert_eq!(engine.add_document("a", "b"), Err(Error::Storage("no room".to_string())));
    assert_eq!(engine.delete_document(1), Err(Error::Storage("read only".to_string())));
    assert!(notifications.next().now_or_never().is_none());

    let mut engine = SearchEngine::new(
        MemoryStorage::new(),
        FixedIndex { hits: Err("closed".to_string()), added: 0 },
    );
    let mut notifications = engine.subscribe();
    assert_eq!(engine.add_document("a", "b"), Err(Error::Index("closed".to_string())));
    // The storage came first and has the document.
    assert_eq!(engine.get_document(1).unwrap().title, "a");
    assert_eq!(engine.delete_document(1), Err(Error::Index("closed".to_string())));
    assert!(engine.get_document(1).is_ok());
    assert_eq!(engine.search("a"), Err(Error::Index("closed".to_string())));
    assert!(notifications.next().now_or_never().is_none());
}

#[test]
fn hits_that_cannot_be_read_are_left_out() {
    let engine = SearchEngine::new(
        BrokenStorage,
        FixedIndex { hits: Ok(vec![2, 1, 3, 1]), added: 0 },
    );
    let found = engine.search("anything").unwrap();
    assert_eq!(found.len(), 2);
    assert_eq!(found[0].title, "kept");
    assert_eq!(found[0], found[1]);
}

#[test]
fn a_change_leaves_other_documents_alone() {
    let mut engine = SearchEngine::new(MemoryStorage::new(), MemoryIndex::new());
    let a = engine.add_document("Kept", "as it is").unwrap();
    let before = engine.get_document(a).unwrap();
    let b = engine.add_document("Other", "text").unwrap();
    assert_eq!(engine.get_document(b).unwrap().body, "text");
    assert_eq!(engine.get_document(a).unwrap(), before);
    engine.delete_document(b).unwrap();
    assert_eq!(engine.get_document(a).unwrap(), before);
    assert_eq!(engine.search("kept").unwrap(), vec![before]);
}
