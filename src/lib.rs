//! A quote service: each quote is a book, a passage quoted from it, a
//! random identifier and two timestamps. The library holds the data model,
//! the mapping from a store statement's outcome to a response status, and an
//! in-memory table with the semantics of the relational one.

pub mod handlers;
pub mod laws;
pub mod quote;
pub mod status;
pub mod store;
