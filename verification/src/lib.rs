//! A context-aware SQL completion engine: a dialect-driven lexer, a
//! bidirectional token-pattern matcher used for keyword follow rules, cursor
//! detection, and an in-memory schema cache.
pub mod ast;
pub mod doc;
pub mod span;
pub mod text;
pub mod lex;
pub mod lsp;
pub mod parse;
pub mod dialect;
pub mod engine;
pub mod schema;
pub mod test_util;
pub mod complete;
