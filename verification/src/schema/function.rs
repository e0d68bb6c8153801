use vstd::prelude::*;

use crate::schema::DataType;

verus! {

/// What kind of value a function returns.
#[derive(Debug, Clone, Copy, PartialEq, Eq, Structural)]
pub enum FunctionType {
    Scalar,
    Aggregate,
    Table,
}

/// A function of the catalog.
#[derive(Debug, Clone, PartialEq, Eq)]
pub struct Function {
    pub function_name: String,
    pub parameter_types: Vec<DataType>,
    pub return_type: FunctionReturnType,
    pub description: Option<String>,
    pub schema_name: Option<String>,
    pub database_name: Option<String>,
}

/// The return type of a function - either a scalar value or a table.
#[derive(Debug, Clone, PartialEq, Eq)]
pub enum FunctionReturnType {
    /// Returns a single scalar value (e.g., UPPER(), COUNT())
    Scalar(DataType),
    /// Returns an aggregate value (e.g., SUM(), AVG())
    Aggregate(DataType),
    /// Returns a table with named columns (e.g., UNNEST(), generate_series())
    Table(Vec<TableColumn>),
}

impl FunctionReturnType {
    /// The type of the value a scalar or aggregate function returns.
    pub fn data_type(&self) -> (res: Option<DataType>)
        ensures
            res == match self {
                FunctionReturnType::Scalar(dt) => Some(*dt),
                FunctionReturnType::Aggregate(dt) => Some(*dt),
                FunctionReturnType::Table(_) => None::<DataType>,
            },
    {
        match self {
            FunctionReturnType::Scalar(dt) => Some(*dt),
            FunctionReturnType::Aggregate(dt) => Some(*dt),
            FunctionReturnType::Table(_) => None,
        }
    }
}

/// A column returned by a table-valued function.
#[derive(Debug, Clone, PartialEq, Eq)]
pub struct TableColumn {
    pub column_name: String,
    pub data_type: DataType,
}

} // verus!
