//! What the operations are for, said of the calls themselves.
//!
//! Each law speaks of what calls were given and what they answered. Where a call changes
//! something, `before` is what it was called on and `after` is what it left.
pub mod engine;
pub mod filters;
pub mod hub;
pub mod memory_index;
pub mod queries;
pub mod ranked_indexes;
pub mod small_parts;
pub mod storage;
