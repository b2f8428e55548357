//! The fields of the documents in a tantivy index.
use crate::models::Error;
use tantivy::query::{Query, QueryParser};
use tantivy::schema::{Field, IndexRecordOption, Schema, SchemaBuilder, TextFieldIndexing, TEXT};
use tantivy::tokenizer::TokenizerManager;
use tantivy::TantivyDocument;
use vstd::prelude::*;

verus! {

/// The type `tantivy::schema::SchemaBuilder`. Nothing is assumed of its representation.
#[verifier::external_type_specification]
#[verifier::external_body]
pub struct ExSchemaBuilder(SchemaBuilder);

/// The type `tantivy::schema::Schema`. Nothing is assumed of its representation.
#[verifier::external_type_specification]
#[verifier::external_body]
pub struct ExSchema(Schema);

/// The type `tantivy::TantivyDocument`. Nothing is assumed of its representation.
#[verifier::external_type_specification]
#[verifier::external_body]
pub struct ExTantivyDocument(TantivyDocument);

/// What an index records of the terms in a field.
#[derive(Debug, Clone, Copy, PartialEq, Eq, Structural)]
pub enum TermRecord {
    /// Which documents have the term.
    Documents,
    /// Also how often.
    Frequencies,
    /// Also where.
    Positions,
}

/// The fields of a schema under construction, in order: of each its name, the tokenizer its
/// text goes through, and what is recorded of its terms. A field other than one that
/// `add_stored_text_field` makes has a description of its own in place of the tokenizer.
pub uninterp spec fn fields_so_far(builder: SchemaBuilder) -> Seq<(Seq<char>, Seq<char>, TermRecord)>;

/// The fields of a schema, in order, as `fields_so_far` has them.
pub uninterp spec fn schema_fields(schema: Schema) -> Seq<(Seq<char>, Seq<char>, TermRecord)>;

/// What a document holds, in the order in which it was added: the number of each field with
/// its text.
pub uninterp spec fn document_texts(document: TantivyDocument) -> Seq<(u32, Seq<char>)>;

/// `SchemaBuilder::new`: a schema without fields.
#[verifier::external_body]
fn new_builder() -> (builder: SchemaBuilder)
    ensures
        fields_so_far(builder).len() == 0,
{
    SchemaBuilder::new()
}

/// `SchemaBuilder::add_text_field`, with the options `TEXT` set to this tokenizer and record
/// and to storing the text: puts the field behind those that are there and returns its
/// number. `add_text_field` panics on the names that are left out here.
#[verifier::external_body]
fn add_stored_text_field(
    builder: &mut SchemaBuilder,
    name: &str,
    tokenizer: &str,
    record: TermRecord,
) -> (number: u32)
    requires
        name@.len() > 0,
        name@[0] != '-',
        forall|i: int| 0 <= i < fields_so_far(*old(builder)).len() ==> fields_so_far(*old(builder))[i].0 != name@,
        fields_so_far(*old(builder)).len() < u32::MAX,
    ensures
        fields_so_far(*final(builder)) == fields_so_far(*old(builder)).push((name@, tokenizer@, record)),
        number == fields_so_far(*old(builder)).len(),
{
    let option = match record {
        TermRecord::Documents => IndexRecordOption::Basic,
        TermRecord::Frequencies => IndexRecordOption::WithFreqs,
        TermRecord::Positions => IndexRecordOption::WithFreqsAndPositions,
    };
    let indexing = TextFieldIndexing::default().set_tokenizer(tokenizer).set_index_option(option);
    builder.add_text_field(name, TEXT.set_indexing_options(indexing).set_stored()).field_id()
}

/// `SchemaBuilder::build`: the schema with the fields that were added.
#[verifier::external_body]
fn finish(builder: SchemaBuilder) -> (schema: Schema)
    ensures
        schema_fields(schema) == fields_so_far(builder),
{
    builder.build()
}

/// `TantivyDocument::new`: a document without texts.
#[verifier::external_body]
fn new_document() -> (document: TantivyDocument)
    ensures
        document_texts(document).len() == 0,
{
    TantivyDocument::new()
}

/// `TantivyDocument::add_text`: puts the text behind those that are there.
#[verifier::external_body]
fn add_text(document: &mut TantivyDocument, field: u32, text: &str)
    ensures
        document_texts(*final(document)) == document_texts(*old(document)).push((field, text@)),
{
    document.add_text(Field::from_field_id(field), text);
}

/// A query in the form in which tantivy runs it.
#[verifier::external_body]
pub struct ParsedQuery {
    pub query: Box<dyn Query>,
}

/// What tantivy makes of a query on a schema with these fields, where words without a field
/// name are about the fields with the numbers `defaults`: the query, or a report of what is
/// wrong with it.
pub uninterp spec fn parsed(
    fields: Seq<(Seq<char>, Seq<char>, TermRecord)>,
    defaults: Seq<u32>,
    query: Seq<char>,
) -> Result<ParsedQuery, Seq<char>>;

/// An outcome with the characters of its report.
pub open spec fn told(outcome: Result<ParsedQuery, String>) -> Result<ParsedQuery, Seq<char>> {
    match outcome {
        Ok(query) => Ok(query),
        Err(report) => Err(report@),
    }
}

/// `QueryParser::parse_query`, with the tokenizers that tantivy has by default: what it makes
/// of the query depends on the schema, the default fields and the query alone. The parser
/// panics on a default field that the schema does not have, and on a star that stands loosely
/// behind a sign. Its time doubles with each level of groups inside one another, and it calls
/// itself for each group and each negation. Queries of any of these kinds are left out.
#[verifier::external_body]
fn parse(schema: &Schema, defaults: &Vec<u32>, query: &str) -> (outcome: Result<ParsedQuery, String>)
    requires
        forall|i: int| 0 <= i < defaults@.len() ==> #[trigger] defaults@[i] < schema_fields(*schema).len(),
        !crate::search::query::has_loose_star(query@),
        !crate::search::query::nests_deeply(query@),
    ensures
        told(outcome) == parsed(schema_fields(*schema), defaults@, query@),
{
    let defaults = defaults.iter().map(|number| Field::from_field_id(*number)).collect();
    let parser = QueryParser::new(schema.clone(), defaults, TokenizerManager::default());
    parser.parse_query(query).map(|query| ParsedQuery { query }).map_err(|e| e.to_string())
}

/// The schema of indexed documents, with the numbers of its two fields.
pub struct TextSchema {
    schema: Schema,
    title_field: u32,
    body_field: u32,
}

impl TextSchema {
    /// The schema has the two fields.
    #[verifier::type_invariant]
    spec fn has_both_fields(self) -> bool {
        &&& self.title_field < schema_fields(self.schema).len()
        &&& self.body_field < schema_fields(self.schema).len()
    }

    /// The fields of the schema, as `schema_fields` has them.
    pub closed spec fn fields(self) -> Seq<(Seq<char>, Seq<char>, TermRecord)> {
        schema_fields(self.schema)
    }

    /// The number of the field for titles.
    pub closed spec fn title(self) -> u32 {
        self.title_field
    }

    /// The number of the field for bodies.
    pub closed spec fn body(self) -> u32 {
        self.body_field
    }

    /// The schema has a title and a body, in this order and nothing else. Both are stored,
    /// go through this tokenizer, and have all their terms recorded with positions.
    pub open spec fn has_tokenizer(self, tokenizer: Seq<char>) -> bool {
        &&& self.fields() == seq![
            ("title"@, tokenizer, TermRecord::Positions),
            ("body"@, tokenizer, TermRecord::Positions),
        ]
        &&& self.title() == 0
        &&& self.body() == 1
    }

    /// The schema whose texts go through `tokenizer`.
    pub fn with_tokenizer(tokenizer: &str) -> (schema: Self)
        ensures
            schema.has_tokenizer(tokenizer@),
    {
        proof {
            reveal_strlit("title");
            reveal_strlit("body");
        }
        let mut builder = new_builder();
        let title_field = add_stored_text_field(
            &mut builder,
            "title",
            tokenizer,
            TermRecord::Positions,
        );
        assert("title"@ != "body"@) by {
            assert("title"@.len() != "body"@.len());
        }
        let body_field = add_stored_text_field(
            &mut builder,
            "body",
            tokenizer,
            TermRecord::Positions,
        );
        let schema = finish(builder);
        assert(schema_fields(schema) =~= seq![
            ("title"@, tokenizer@, TermRecord::Positions),
            ("body"@, tokenizer@, TermRecord::Positions),
        ]);
        TextSchema { schema, title_field, body_field }
    }

    /// The schema in tantivy's own form.
    pub fn schema(&self) -> (schema: &Schema)
        ensures
            schema_fields(*schema) == self.fields(),
    {
        &self.schema
    }

    /// A document with this title and body.
    pub fn create_document(&self, title: &str, body: &str) -> (document: TantivyDocument)
        ensures
            document_texts(document) == seq![(self.title(), title@), (self.body(), body@)],
    {
        let mut document = new_document();
        add_text(&mut document, self.title_field, title);
        add_text(&mut document, self.body_field, body);
        assert(document_texts(document) =~= seq![
            (self.title_field, title@),
            (self.body_field, body@),
        ]);
        document
    }

    /// The fields that a query without field names is about.
    pub fn query_fields(&self) -> (fields: Vec<u32>)
        ensures
            fields@ == seq![self.title(), self.body()],
    {
        let mut fields: Vec<u32> = Vec::new();
        fields.push(self.title_field);
        fields.push(self.body_field);
        assert(fields@ =~= seq![self.title_field, self.body_field]);
        fields
    }

    /// What is to be searched for where a user asks `query` about the title and the body, or
    /// what is wrong with the query.
    pub fn parse_query(&self, query: &str) -> (outcome: Result<ParsedQuery, Error>)
        requires
            !crate::search::query::has_loose_star(query@),
            !crate::search::query::nests_deeply(query@),
        ensures
            match parsed(self.fields(), seq![self.title(), self.body()], query@) {
                Ok(q) => outcome == Ok::<ParsedQuery, Error>(q),
                Err(report) => outcome matches Err(Error::Index(text)) && text@ == report,
            },
    {
        proof {
            use_type_invariant(self);
        }
        match parse(&self.schema, &self.query_fields(), query) {
            Ok(q) => Ok(q),
            Err(report) => Err(Error::Index(report)),
        }
    }
}

} // verus!
