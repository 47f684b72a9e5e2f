//! A verified model of a minimal HTTP CRUD service over a single `users`
//! table: the SQL statements each operation issues, the JSON envelopes each
//! response carries, and the table semantics the operations promise.

pub mod config;
pub mod handlers;
pub mod json;
pub mod laws;
pub mod sql;
pub mod table;
pub mod user;
