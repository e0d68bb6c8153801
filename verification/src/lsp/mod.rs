//! Messages and payloads exchanged with editor clients, engine hosts and
//! remote catalogs, and the in-memory catalog that catalog responses fill.
pub mod engine;
pub mod catalog;
pub mod postgres;
pub mod queries;
pub mod cached;
