use vstd::prelude::*;

verus! {

/// Names a schema, where one is given.
#[derive(Debug)]
pub struct SchemaIdentifier {
    pub schema: Option<String>,
}

/// Names a table, and its schema where one is given.
#[derive(Debug)]
pub struct TableIdentifier {
    pub table: String,
    pub schema: Option<String>,
}

/// A request to a remote catalog.
#[derive(Debug)]
pub enum RemoteCatalogRequest {
    ListSchemas,
    ListTables { schema: String },
    ListColumns { table: String, schema: String },
    GetTable { table: String, schema: String },
}

} // verus!
