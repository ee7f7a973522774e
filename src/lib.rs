//! A small store of to-do items: the record type, the operations that every
//! storage backend offers, an in-memory backend, the statements and result
//! rules of a relational backend, and the decisions of the HTTP handlers.

pub mod todo;
pub mod repository;
pub mod in_memory;
pub mod relational;
pub mod handlers;
pub mod latency;
