use vstd::prelude::*;

verus! {

/// Attach a database engine to a document.
#[derive(Debug)]
pub struct SetEngine {
    pub document_uri: String,
    pub uri: String,
    pub kind: EngineKind,
}

/// Detach the engine of a document.
#[derive(Debug)]
pub struct RemoveEngine {
    pub document_uri: String,
}

/// The kinds of engine that can be attached.
#[derive(Debug)]
pub enum EngineKind {
    Postgres(PostgresCon),
}

/// How to reach a PostgreSQL server.
#[derive(Debug)]
pub struct PostgresCon {
    pub uri: String,
}

/// The answer to an engine request.
#[derive(Debug)]
pub enum EngineResponsePayload {
    Error { message: String },
    Success,
}

} // verus!
