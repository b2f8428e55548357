# full_text_search

A full-text search engine whose rules are proved with Verus.

- `src/` is the verified library: documents and their storage in memory, an index in memory,
  the ids and answers of indexes that tantivy keeps on disk, the engine over a storage and an
  index, and a hub that broadcasts notifications.
- `tests/` runs the library, with the crates it calls.
- `app/` is the program around it: PostgreSQL, index files, WebSockets.

Each module states what its functions return and change in `ensures` clauses over spec
functions. The properties that span several functions are the public proof functions named
`law_...`.

What the library takes on trust is marked `#[verifier::external_body]` or
`assume_specification`, next to a comment that names the outside function: the tables of
`dashmap` in `src/table.rs`, the channels of `tokio` in `src/channel.rs`, the schemas,
documents and queries of `tantivy` in `src/search/schema.rs`, and a few functions of the standard library
in `src/text.rs`, `src/clock.rs` and `src/notifications/hub.rs`.
