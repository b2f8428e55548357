use full_text_search::search::optimized_index::{locate_appended, OptimizedIndex};
use full_text_search::search::query::{
    finds_loose_star, nests_too_deep, MAX_GROUPS, MAX_NEGATIONS,
};
use full_text_search::search::schema::TextSchema;
use full_text_search::search::tantivy_index::TantivyIndex;
use full_text_search::search::{RankedHit, Score, SEARCH_LIMIT};
use full_text_search::table::Place;
use full_text_search::Error;
use std::sync::{Arc, Mutex};
use tantivy::collector::TopDocs;
use tantivy::directory::MmapDirectory;
use tantivy::index::SegmentId;
use tantivy::merge_policy::NoMergePolicy;
use tantivy::query::{EnableScoring, Explanation, Query, Scorer, Weight};
use tantivy::schema::{
    IndexRecordOption, Schema, SchemaBuilder, TextFieldIndexing, Value, STORED, TEXT,
};
use tantivy::{
    DocId, DocSet, Document, Index, IndexWriter, SegmentReader, TantivyDocument, TERMINATED,
};
use tempfile::TempDir;

fn key(segment: SegmentId) -> u128 {
    u128::from_str_radix(&segment.uuid_string(), 16).unwrap()
}

fn segments(index: &Index) -> Vec<u128> {
    index.searchable_segment_ids().unwrap().into_iter().map(key).collect()
}

fn ranked(index: &Index, fields: &TextSchema, query: &str) -> Vec<RankedHit> {
    assert!(!finds_loose_star(query) && !nests_too_deep(query));
    let searcher = index.reader().unwrap().searcher();
    let parsed = fields.parse_query(query).unwrap();
    searcher
        .search(&parsed.query, &TopDocs::with_limit(SEARCH_LIMIT))
        .unwrap()
        .into_iter()
        .map(|(score, address)| RankedHit {
            score: Score { bits: score.to_bits() },
            segment: key(searcher.segment_reader(address.segment_ord).segment_id()),
            doc_id: address.doc_id,
        })
        .collect()
}

/// Matches the one document at a place.
#[derive(Clone, Debug)]
struct AtPlace {
    place: Place,
}

impl Query for AtPlace {
    fn weight(&self, _scoring: EnableScoring<'_>) -> tantivy::Result<Box<dyn Weight>> {
        Ok(Box::new(self.clone()))
    }
}

impl Weight for AtPlace {
    fn scorer(&self, reader: &SegmentReader, _boost: f32) -> tantivy::Result<Box<dyn Scorer>> {
        let here = key(reader.segment_id()) == self.place.0;
        Ok(Box::new(OneDocument { doc: if here { self.place.1 } else { TERMINATED } }))
    }

    fn explain(&self, _reader: &SegmentReader, _doc: DocId) -> tantivy::Result<Explanation> {
        Ok(Explanation::new("place", 1.0))
    }
}

struct OneDocument {
    doc: DocId,
}

impl DocSet for OneDocument {
    fn advance(&mut self) -> DocId {
        self.doc = TERMINATED;
        TERMINATED
    }

    fn doc(&self) -> DocId {
        self.doc
    }

    fn size_hint(&self) -> u32 {
        1
    }
}

impl Scorer for OneDocument {
    fn score(&mut self) -> f32 {
        1.0
    }
}

/// An `OptimizedIndex` together with the index on disk that it is about.
struct OnDisk {
    _dir: TempDir,
    index: Index,
    writer: IndexWriter,
    ids: OptimizedIndex,
}

impl OnDisk {
    fn new() -> OnDisk {
        let dir = TempDir::new().unwrap();
        let ids = OptimizedIndex::new();
        let directory = MmapDirectory::open(dir.path()).unwrap();
        let index = Index::open_or_create(directory, ids.fields().schema().clone()).unwrap();
        let writer = index.writer_with_num_threads(2, 200_000_000).unwrap();
        writer.set_merge_policy(Box::new(NoMergePolicy));
        OnDisk { _dir: dir, index, writer, ids }
    }

    fn add_document(&mut self, title: &str, body: &str) {
        let doc = self.ids.fields().create_document(title, body);
        let before = segments(&self.index);
        self.writer.add_document(doc).unwrap();
        self.writer.commit().unwrap();
        let place = locate_appended(&before, &segments(&self.index));
        self.ids.add_document(place).unwrap();
    }

    fn delete_document(&mut self, id: i32) {
        if let Some(place) = self.ids.delete_document(id) {
            self.writer.delete_query(Box::new(AtPlace { place })).unwrap();
            self.writer.commit().unwrap();
        }
    }

    fn search(&self, query: &str) -> Vec<(i32, f32)> {
        let hits = ranked(&self.index, self.ids.fields(), query);
        self.ids
            .search(&hits)
            .into_iter()
            .map(|(id, score)| (id, f32::from_bits(score.bits)))
            .collect()
    }
}

#[test]
fn test_basic_operations() {
    let mut index = OnDisk::new();

    // Test document addition
    index.add_document("Rust Programming", "Learn Rust language");
    index.add_document("Python Guide", "Python programming tutorial");

    // Test basic search
    let results = index.search("rust");
    assert_eq!(results.len(), 1);

    let results = index.search("programming");
    assert_eq!(results.len(), 2);

    // Test document deletion
    index.delete_document(1);
    let results = index.search("rust");
    assert_eq!(results.len(), 0);
}

#[test]
fn test_search_relevance() {
    let mut index = OnDisk::new();

    // Add documents with varying relevance
    index.add_document(
        "Rust Programming Guide",
        "Comprehensive guide to Rust programming language",
    );
    index.add_document("Programming Languages", "Brief mention of Rust among other languages");

    // Test search relevance
    let results = index.search("rust programming");
    assert_eq!(results.len(), 2);

    // First result should have higher score due to more relevant content
    assert!(results[0].1 > results[1].1);
}

#[test]
fn test_concurrent_operations() {
    let runtime = tokio::runtime::Builder::new_current_thread().build().unwrap();
    let index = Arc::new(Mutex::new(OnDisk::new()));
    let index_clone = index.clone();

    runtime.block_on(async {
        // Spawn concurrent add operations
        let add_task = tokio::spawn(async move {
            for i in 0..5 {
                index_clone.lock().unwrap().add_document(
                    &format!("Document {}", i),
                    &format!("Content for document {}", i),
                );
            }
        });

        // Perform searches while adding
        for i in 0..3 {
            let results = index.lock().unwrap().search(&format!("document {}", i));
            // Number of results may vary depending on timing
            assert!(results.len() <= (i + 1));
        }

        add_task.await.unwrap();
    });

    // Verify final state
    let results = index.lock().unwrap().search("document");
    assert_eq!(results.len(), 5);
}

#[test]
fn test_empty_and_edge_cases() {
    let mut index = OnDisk::new();

    // Test empty search
    let results = index.search("");
    assert_eq!(results.len(), 0);

    // Test search with no documents
    let results = index.search("test");
    assert_eq!(results.len(), 0);

    // Test delete non-existent document
    index.delete_document(999);

    // Test adding and searching documents with special characters
    index.add_document("Special !@#$%^&*()", "Content with special chars: !@#$%^&*()");
    let results = index.search("special");
    assert_eq!(results.len(), 1);
}

/// A `TantivyIndex` together with the index on disk that it is about.
struct Plain {
    _dir: TempDir,
    index: Index,
    writer: IndexWriter,
    layout: TantivyIndex,
}

impl Plain {
    fn new() -> Plain {
        let dir = TempDir::new().unwrap();
        let layout = TantivyIndex::new();
        let index = Index::create_in_dir(dir.path(), layout.fields.schema().clone()).unwrap();
        let writer = index.writer(50_000_000).unwrap();
        Plain { _dir: dir, index, writer, layout }
    }

    fn add_document(&mut self, title: &str, body: &str) {
        self.writer.add_document(self.layout.create_document(title, body)).unwrap();
        self.writer.commit().unwrap();
    }

    fn search(&self, query: &str) -> Vec<(i32, Score)> {
        self.layout.search_results(&ranked(&self.index, &self.layout.fields, query))
    }
}

#[test]
fn tantivy_index_test_index_and_search() {
    let mut index = Plain::new();

    // Add test documents
    index.add_document("Rust Programming", "Learn Rust programming language");
    index.add_document("Python Guide", "Python programming tutorial");

    // Search for documents
    let results = index.search("rust");
    assert!(!results.is_empty(), "Should find documents containing 'rust'");

    let results = index.search("python");
    assert!(!results.is_empty(), "Should find documents containing 'python'");

    let results = index.search("javascript");
    assert!(results.is_empty(), "Should not find documents containing 'javascript'");
}

#[test]
fn tantivy_index_test_delete_document() {
    let mut index = Plain::new();

    // Add a test document
    index.add_document("Test Document", "This is a test document");

    // Search to verify document was added
    let results = index.search("test");
    assert!(!results.is_empty(), "Document should be found before deletion");

    // Delete the document (a no-op)
    index.layout.delete_document(1).unwrap();

    // Search again to verify document still exists (since delete is a no-op)
    let results = index.search("test");
    assert!(!results.is_empty(), "Document should still exist after deletion");
}

#[test]
fn the_schemas_are_as_declared() {
    let mut builder = Schema::builder();
    builder.add_text_field("title", TEXT | STORED);
    builder.add_text_field("body", TEXT | STORED);
    let plain = TantivyIndex::new().fields;
    assert_eq!(*plain.schema(), builder.build());
    assert_eq!(plain.schema().get_field("title").unwrap().field_id(), 0);
    assert_eq!(plain.schema().get_field("body").unwrap().field_id(), 1);
    assert_eq!(plain.query_fields(), vec![0, 1]);

    let mut builder = SchemaBuilder::new();
    for name in ["title", "body"] {
        let indexing = TextFieldIndexing::default()
            .set_tokenizer("en_stem")
            .set_index_option(IndexRecordOption::WithFreqsAndPositions);
        builder.add_text_field(name, TEXT.set_indexing_options(indexing).set_stored());
    }
    let stemmed = OptimizedIndex::create_schema();
    assert_eq!(*stemmed.schema(), builder.build());
    assert_eq!(stemmed.query_fields(), vec![0, 1]);
}

#[test]
fn a_document_has_its_title_and_its_body() {
    let layout = TantivyIndex::new();
    let doc: TantivyDocument = layout.create_document("the title", "the body");
    assert_eq!(doc.len(), 2);
    let texts: Vec<(u32, String)> = doc
        .iter_fields_and_values()
        .map(|(field, value)| (field.field_id(), value.as_str().unwrap().to_string()))
        .collect();
    assert_eq!(texts, vec![(0, "the title".to_string()), (1, "the body".to_string())]);
}

#[test]
fn stemming_finds_other_forms_of_a_word() {
    let mut index = OnDisk::new();
    index.add_document("Running shoes", "for every runner");
    assert_eq!(index.search("run").len(), 1);
    let mut plain = Plain::new();
    plain.add_document("Running shoes", "for every runner");
    assert!(plain.search("run").is_empty());
}

fn hit(segment: u128, doc_id: u32, bits: u32) -> RankedHit {
    RankedHit { score: Score { bits }, segment, doc_id }
}

#[test]
fn document_numbers_wrap_into_ids() {
    let layout = TantivyIndex::new();
    let results = layout.search_results(&vec![
        hit(9, 0, 1),
        hit(9, 0x7fff_ffff, 2),
        hit(8, 0x8000_0000, 3),
        hit(8, 0xffff_ffff, 4),
    ]);
    let ids: Vec<i32> = results.iter().map(|result| result.0).collect();
    assert_eq!(ids, vec![0, i32::MAX, i32::MIN, -1]);
    let bits: Vec<u32> = results.iter().map(|result| result.1.bits).collect();
    assert_eq!(bits, vec![1, 2, 3, 4]);
}

#[test]
fn each_hit_carries_the_id_of_its_own_document() {
    let mut index = OnDisk::new();
    index.add_document("Rust Programming", "Learn Rust language");
    index.add_document("Python Guide", "Python programming tutorial");
    let ids: Vec<i32> = index.search("python").iter().map(|result| result.0).collect();
    assert_eq!(ids, vec![2]);
    let ids: Vec<i32> = index.search("rust").iter().map(|result| result.0).collect();
    assert_eq!(ids, vec![1]);
    let mut ids: Vec<i32> = index.search("programming").iter().map(|result| result.0).collect();
    ids.sort();
    assert_eq!(ids, vec![1, 2]);

    index.delete_document(1);
    assert_eq!(index.search("rust").len(), 0);
    let ids: Vec<i32> = index.search("programming").iter().map(|result| result.0).collect();
    assert_eq!(ids, vec![2]);
    // The document itself is gone, not only its id.
    assert_eq!(ranked(&index.index, index.ids.fields(), "rust").len(), 0);
    assert_eq!(ranked(&index.index, index.ids.fields(), "programming").len(), 1);
}

#[test]
fn many_documents_keep_their_ids() {
    let mut index = OnDisk::new();
    for n in 1..=12 {
        index.add_document(&format!("word{} common", n), "text");
    }
    index.delete_document(5);
    for n in 1..=12 {
        let ids: Vec<i32> = index.search(&format!("word{}", n)).iter().map(|r| r.0).collect();
        assert_eq!(ids, if n == 5 { vec![] } else { vec![n] });
    }
    assert_eq!(index.search("common").len(), 10);
}

#[test]
fn ids_stand_for_places() {
    let mut index = OptimizedIndex::new();
    assert!(index.has_next_id());
    assert_eq!(index.add_document(Ok((7, 0))), Ok(()));
    let full = Error::Index("full".to_string());
    assert_eq!(index.add_document(Err(full)), Err(Error::Index("full".to_string())));
    assert_eq!(index.add_document(Ok((8, 0))), Ok(()));
    assert_eq!(index.get_next_id(), 4);

    let hits = vec![hit(8, 0, 30), hit(8, 1, 20), hit(7, 0, 10), hit(8, 0, 5)];
    let plain: Vec<(i32, u32)> = index.search(&hits).iter().map(|r| (r.0, r.1.bits)).collect();
    assert_eq!(plain, vec![(3, 30), (1, 10), (3, 5)]);

    assert_eq!(index.delete_document(3), Some((8, 0)));
    assert_eq!(index.delete_document(3), None);
    assert_eq!(index.delete_document(2), None);
    let results = index.search(&vec![hit(8, 0, 30), hit(7, 0, 10)]);
    assert_eq!(results.len(), 1);
    assert_eq!(results[0].0, 1);
}

#[test]
fn an_appended_document_is_in_the_new_segment() {
    assert_eq!(locate_appended(&vec![], &vec![4]), Ok((4, 0)));
    assert_eq!(locate_appended(&vec![4, 6], &vec![6, 5, 4]), Ok((5, 0)));
    let none = Error::Index("The index has no new segment".to_string());
    assert_eq!(locate_appended(&vec![4], &vec![4]), Err(none));
}

#[test]
fn queries_are_parsed_against_the_schema() {
    let fields = OptimizedIndex::create_schema();
    let shown = |query: &str| format!("{:?}", fields.parse_query(query).unwrap().query);
    assert_eq!(shown("running"), shown("title:runs body:runs"));
    assert_ne!(shown("running"), shown("title:runs"));
    let plain = TantivyIndex::new().fields;
    assert_ne!(format!("{:?}", plain.parse_query("running").unwrap().query), shown("running"));
    match fields.parse_query("author:me") {
        Err(Error::Index(report)) => assert_eq!(report, "Field does not exist: 'author'"),
        _ => panic!("Expected a report"),
    }
    assert!(matches!(fields.parse_query("(open"), Err(Error::Index(_))));
}

#[test]
fn loose_stars_are_found() {
    for query in ["+ *", "a -\t *", "x + \n* y", "(+ *)", "a *+ *", "\"a\"+ *", "a^2+ *"] {
        assert!(finds_loose_star(query), "{query}");
    }
    // Where double quotes may mean something else, a phrase is not taken for granted.
    for query in ["'a \" b' + * \"", "\\\" + *"] {
        assert!(finds_loose_star(query), "{query}");
    }
    for query in ["", "*", "+*", "a * b", "- a *", "+", "+ ", "a-b c*"] {
        assert!(!finds_loose_star(query), "{query}");
    }
}

#[test]
fn signs_in_words_and_phrases_are_no_loose_signs() {
    let fields = TantivyIndex::new().fields;
    for query in ["c++ *", "\"a + *\"", "++ *", "title:+ *", "x \"b - *\" y"] {
        assert!(!finds_loose_star(query), "{query}");
        assert!(fields.parse_query(query).is_ok(), "{query}");
    }
    assert!(!finds_loose_star("a +- *"));
    assert!(matches!(fields.parse_query("a +- *"), Err(Error::Index(_))));
}

#[test]
fn deep_nesting_is_found() {
    assert!(!nests_too_deep(&"(".repeat(MAX_GROUPS)));
    assert!(nests_too_deep(&"(".repeat(MAX_GROUPS + 1)));
    assert!(!nests_too_deep(&"NOT ".repeat(MAX_NEGATIONS)));
    assert!(nests_too_deep(&"NOT\t".repeat(MAX_NEGATIONS + 1)));
    // Groups side by side and parentheses in a phrase do not nest.
    assert!(!nests_too_deep(&"(a) ".repeat(100)));
    assert!(!nests_too_deep(&format!("\"{}\"", "(".repeat(100))));
    // A closing parenthesis in a phrase closes nothing.
    assert!(nests_too_deep(&"(\")\" ".repeat(MAX_GROUPS + 1)));
    // Where a phrase is not certain, nothing counts as closed.
    assert!(nests_too_deep(&"(don't) ".repeat(MAX_GROUPS + 1)));
}

#[test]
fn the_deepest_queries_are_parsed() {
    let fields = OptimizedIndex::create_schema();
    let groups = format!("{}a{}", "(".repeat(MAX_GROUPS), ")".repeat(MAX_GROUPS));
    let unclosed = "(".repeat(MAX_GROUPS);
    let negated = format!("{}a", "NOT ".repeat(MAX_NEGATIONS));
    let both = format!(
        "{}{}a{}",
        "NOT (".repeat(MAX_GROUPS),
        "NOT ".repeat(MAX_NEGATIONS - MAX_GROUPS),
        ")".repeat(MAX_GROUPS)
    );
    for query in [&groups, &unclosed, &negated, &both] {
        assert!(!nests_too_deep(query));
    }
    assert!(fields.parse_query(&groups).is_ok());
    assert!(fields.parse_query(&unclosed).is_err());
    // A query that only excludes is answered with a report.
    for query in [&negated, &both] {
        assert!(matches!(fields.parse_query(query), Ok(_) | Err(Error::Index(_))));
    }
}

#[test]
fn no_more_is_answered_than_the_limit() {
    let mut index = OnDisk::new();
    for _ in 0..SEARCH_LIMIT + 3 {
        index.add_document("same", "text");
    }
    assert_eq!(SEARCH_LIMIT, 10);
    assert_eq!(index.search("same").len(), 10);
}
