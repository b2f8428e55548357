use full_text_search::search::memory::MemoryIndex;
use full_text_search::search::{SearchIndex, ONE_BITS};
use full_text_search::storage::memory::MemoryStorage;
use full_text_search::storage::DocumentStorage;
use full_text_search::Error;

#[test]
fn memory_test_index_and_search() {
    let mut index = MemoryIndex::new();

    // Add test documents
    index.add_document("Rust Programming", "Learn Rust language").unwrap();
    index.add_document("Python Guide", "Python programming tutorial").unwrap();

    // Test search
    let results = index.search("rust").unwrap();
    assert_eq!(results.len(), 1);

    let results = index.search("programming").unwrap();
    assert_eq!(results.len(), 2);

    let results = index.search("javascript").unwrap();
    assert_eq!(results.len(), 0);
}

#[test]
fn memory_test_delete_document() {
    let mut index = MemoryIndex::new();

    // Add a document
    index.add_document("Test Doc", "Test content").unwrap();

    // Search to verify document was added
    let results = index.search("test").unwrap();
    assert_eq!(results.len(), 1);

    // Delete the document
    index.delete_document(1).unwrap();

    // Search to verify document was deleted
    let results = index.search("test").unwrap();
    assert_eq!(results.len(), 0);
}

#[test]
fn test_case_insensitive_search() {
    let mut index = MemoryIndex::new();

    index.add_document("UPPERCASE TITLE", "UPPERCASE CONTENT").unwrap();
    index.add_document("lowercase title", "lowercase content").unwrap();

    let results = index.search("UPPERCASE").unwrap();
    assert_eq!(results.len(), 1);

    let results = index.search("uppercase").unwrap();
    assert_eq!(results.len(), 1);

    let results = index.search("LOWERCASE").unwrap();
    assert_eq!(results.len(), 1);

    let results = index.search("lowercase").unwrap();
    assert_eq!(results.len(), 1);
}

#[test]
fn test_add_document() {
    let mut storage = MemoryStorage::new();
    let id = storage.add_document("Test Title", "Test Content").unwrap();
    let doc = storage.get_document(id).unwrap();
    assert_eq!(doc.title, "Test Title");
    assert_eq!(doc.body, "Test Content");
}

#[test]
fn test_delete_document() {
    let mut storage = MemoryStorage::new();
    let id = storage.add_document("Test Title", "Test Content").unwrap();
    storage.delete_document(id).unwrap();
    let result = storage.get_document(id);
    assert!(result.is_err());
}

#[test]
fn test_get_nonexistent_document() {
    let storage = MemoryStorage::new();
    let result = storage.get_document(1);
    assert!(result.is_err());
    assert_eq!(result, Err(Error::DocumentNotFound));
}

#[test]
fn hits_carry_the_id_and_a_score_of_one() {
    let mut index = MemoryIndex::default();
    index.add_document("first", "alpha").unwrap();
    index.add_document("second", "beta").unwrap();
    let results = index.search("BET").unwrap();
    assert_eq!(results.len(), 1);
    assert_eq!(results[0].0, 2);
    assert_eq!(results[0].1.bits, ONE_BITS);
    assert_eq!(f32::from_bits(results[0].1.bits), 1.0f32);
}

#[test]
fn an_empty_query_finds_everything() {
    let mut index = MemoryIndex::new();
    index.add_document("a", "b").unwrap();
    index.add_document("", "").unwrap();
    let mut ids: Vec<i32> = index.search("").unwrap().iter().map(|hit| hit.0).collect();
    ids.sort();
    assert_eq!(ids, vec![1, 2]);
}

#[test]
fn case_is_ignored_beyond_ascii() {
    let mut index = MemoryIndex::new();
    index.add_document("ÜBERSICHT", "naïve Ärzte").unwrap();
    assert_eq!(index.search("übersicht").unwrap().len(), 1);
    assert_eq!(index.search("ärzte").unwrap().len(), 1);
    assert_eq!(index.search("uber").unwrap().len(), 0);
}

#[test]
fn ids_count_up_from_one() {
    let mut storage = MemoryStorage::default();
    assert_eq!(storage.add_document("a", ""), Ok(1));
    assert_eq!(storage.add_document("b", ""), Ok(2));
    assert_eq!(storage.add_document("c", ""), Ok(3));
    storage.delete_document(3).unwrap();
    assert_eq!(storage.add_document("d", ""), Ok(3));
    assert_eq!(storage.get_document(3).unwrap().title, "d");
}

#[test]
fn after_a_gap_a_new_document_takes_the_last_id() {
    let mut storage = MemoryStorage::new();
    storage.add_document("a", "").unwrap();
    storage.add_document("b", "").unwrap();
    storage.delete_document(1).unwrap();
    assert_eq!(storage.add_document("c", ""), Ok(2));
    assert_eq!(storage.get_document(2).unwrap().title, "c");
    assert_eq!(storage.get_document(1), Err(Error::DocumentNotFound));
}

#[test]
fn deleting_keeps_other_documents() {
    let mut storage = MemoryStorage::new();
    let first = storage.add_document("a", "x").unwrap();
    let second = storage.add_document("b", "y").unwrap();
    storage.delete_document(first).unwrap();
    storage.delete_document(first).unwrap();
    storage.delete_document(99).unwrap();
    let doc = storage.get_document(second).unwrap();
    assert_eq!((doc.id, doc.title.as_str(), doc.body.as_str()), (2, "b", "y"));
}

#[test]
fn a_clone_is_a_table_of_its_own() {
    let mut storage = MemoryStorage::new();
    storage.add_document("a", "").unwrap();
    let mut copy = storage.clone();
    copy.delete_document(1).unwrap();
    assert!(storage.get_document(1).is_ok());
    assert!(copy.get_document(1).is_err());

    let mut index = MemoryIndex::new();
    index.add_document("a", "").unwrap();
    let mut other = index.clone();
    other.add_document("ab", "").unwrap();
    assert_eq!(index.search("a").unwrap().len(), 1);
    assert_eq!(other.search("a").unwrap().len(), 2);
}
