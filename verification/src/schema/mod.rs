//! The in-memory schema: tables, columns and functions, and a builder for it.
pub mod builder;
pub mod cache;
pub mod data_type;
pub mod function;
pub mod table;

pub use builder::{CacheBuilder, Name};
pub use cache::Cache;
pub use data_type::DataType;
pub use function::{Function, FunctionReturnType, FunctionType, TableColumn};
pub use table::{Column, Table, TableType};
