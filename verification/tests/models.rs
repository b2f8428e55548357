use full_text_search::{DocumentEvent, Error, SearchDocument};

#[test]
fn test_search_document_equality() {
    let doc1 = SearchDocument {
        id: 1,
        title: "Test".to_string(),
        body: "Test body".to_string(),
    };
    let doc2 = SearchDocument {
        id: 1,
        title: "Test".to_string(),
        body: "Test body".to_string(),
    };
    let doc3 = SearchDocument {
        id: 2,
        title: "Test".to_string(),
        body: "Test body".to_string(),
    };

    assert_eq!(doc1, doc2);
    assert_ne!(doc1, doc3);
}

#[test]
fn test_document_event_equality() {
    let doc = SearchDocument {
        id: 1,
        title: "Test".to_string(),
        body: "Test body".to_string(),
    };

    let event1 = DocumentEvent::Created(doc.clone());
    let event2 = DocumentEvent::Created(doc.clone());
    let event3 = DocumentEvent::Updated(doc.clone());
    let event4 = DocumentEvent::Deleted(1);
    let event5 = DocumentEvent::Deleted(1);

    assert_eq!(event1, event2);
    assert_ne!(event1, event3);
    assert_eq!(event4, event5);
}

#[test]
fn clones_are_equal() {
    let doc = SearchDocument {
        id: 7,
        title: "Title".to_string(),
        body: "Body".to_string(),
    };
    assert_eq!(doc.clone(), doc);
    let updated = DocumentEvent::Updated(doc);
    assert_eq!(updated.clone(), updated);
    assert_eq!(DocumentEvent::Deleted(3).clone(), DocumentEvent::Deleted(3));
}

#[test]
fn errors_say_what_failed() {
    assert_eq!(Error::DocumentNotFound.message(), "Document not found");
    assert_eq!(Error::Storage("no connection".to_string()).message(), "no connection");
    assert_eq!(Error::Index("disk full".to_string()).message(), "disk full");
}
