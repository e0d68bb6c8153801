use vstd::prelude::*;

use crate::schema::DataType;

verus! {

/// Whether a relation is a base table or a view.
#[derive(Debug, Clone, Copy, PartialEq, Eq, Structural)]
pub enum TableType {
    Table,
    View,
}

/// A table or view of the catalog.
#[derive(Debug, Clone, PartialEq, Eq)]
pub struct Table {
    pub table_name: String,
    pub table_type: Option<TableType>,
    pub schema_name: Option<String>,
    pub database_name: Option<String>,
}

/// A column of a table.
#[derive(Debug, Clone, PartialEq, Eq)]
pub struct Column {
    pub column_name: String,
    pub table_name: Option<String>,
    pub schema_name: Option<String>,
    pub database_name: Option<String>,
    pub data_type: DataType,
    pub is_nullable: Option<bool>,
}

} // verus!
