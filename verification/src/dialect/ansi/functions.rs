//! The functions every ANSI dialect knows, with their signatures.
use vstd::prelude::*;

use crate::dialect::SpecFunction;
use crate::schema::{DataType, FunctionType};

verus! {

/// Whether a function entry has the name, parameter types, return type, kind
/// and description.
pub open spec fn is_function(
    f: SpecFunction,
    name: &str,
    params: Seq<DataType>,
    ret: DataType,
    ty: FunctionType,
    description: &str,
) -> bool {
    &&& f.function_name@ == name@
    &&& f.parameter_types@ =~= params
    &&& f.return_type == ret
    &&& f.function_type == ty
    &&& f.description@ == description@
}

/// The built-in functions, in order.
pub open spec fn is_ansi_functions(fs: Seq<SpecFunction>) -> bool {
    &&& fs.len() == 19
    &&& is_function(fs[0], "ABS", seq![DataType::Double], DataType::Double, FunctionType::Scalar, "Returns the absolute value of a numeric expression.")
    &&& is_function(fs[1], "CEILING", seq![DataType::Double], DataType::Double, FunctionType::Scalar, "Returns the smallest integer greater than or equal to a number.")
    &&& is_function(fs[2], "FLOOR", seq![DataType::Double], DataType::Double, FunctionType::Scalar, "Returns the largest integer less than or equal to a number.")
    &&& is_function(fs[3], "POWER", seq![DataType::Double, DataType::Double], DataType::Double, FunctionType::Scalar, "Raises a number to the power of another number.")
    &&& is_function(fs[4], "ROUND", seq![DataType::Double, DataType::Integer], DataType::Double, FunctionType::Scalar, "Rounds a number to a specified number of decimal places.")
    &&& is_function(fs[5], "UPPER", seq![DataType::Text], DataType::Text, FunctionType::Scalar, "Converts a string to uppercase.")
    &&& is_function(fs[6], "LOWER", seq![DataType::Text], DataType::Text, FunctionType::Scalar, "Converts a string to lowercase.")
    &&& is_function(fs[7], "LENGTH", seq![DataType::Text], DataType::Integer, FunctionType::Scalar, "Returns the number of characters in a string.")
    &&& is_function(fs[8], "CONCAT", seq![DataType::Text, DataType::Text], DataType::Text, FunctionType::Scalar, "Concatenates two strings.")
    &&& is_function(fs[9], "SUBSTRING", seq![DataType::Text, DataType::Integer, DataType::Integer], DataType::Text, FunctionType::Scalar, "Extracts a substring from a string.")
    &&& is_function(fs[10], "CURRENT_DATE", seq![], DataType::Date, FunctionType::Scalar, "Returns the current date.")
    &&& is_function(fs[11], "CURRENT_TIMESTAMP", seq![], DataType::Timestamp, FunctionType::Scalar, "Returns the current timestamp.")
    &&& is_function(fs[12], "EXTRACT", seq![DataType::Text, DataType::Timestamp], DataType::Integer, FunctionType::Scalar, "Extracts a field (e.g., YEAR, MONTH) from a date or time value.")
    &&& is_function(fs[13], "COALESCE", seq![DataType::Any, DataType::Any], DataType::Any, FunctionType::Scalar, "Returns the first non-NULL value in the list.")
    &&& is_function(fs[14], "NULLIF", seq![DataType::Any, DataType::Any], DataType::Any, FunctionType::Scalar, "Returns NULL if the two arguments are equal; otherwise returns the first.")
    &&& is_function(fs[15], "COUNT", seq![DataType::Any], DataType::Integer, FunctionType::Aggregate, "Counts the number of input rows.")
    &&& is_function(fs[16], "AVG", seq![DataType::Double], DataType::Double, FunctionType::Aggregate, "Returns the average value of a numeric expression.")
    &&& is_function(fs[17], "MIN", seq![DataType::Any], DataType::Any, FunctionType::Aggregate, "Returns the smallest non-null value.")
    &&& is_function(fs[18], "MAX", seq![DataType::Any], DataType::Any, FunctionType::Aggregate, "Returns the largest non-null value.")
}

/// The built-in functions, keyed by their upper-case names.
pub fn functions() -> (res: Vec<SpecFunction>)
    ensures
        res@.len() == 19,
        is_ansi_functions(res@),
{
    vec![
        SpecFunction {
            function_name: "ABS",
            parameter_types: vec![DataType::Double],
            return_type: DataType::Double,
            function_type: FunctionType::Scalar,
            description: "Returns the absolute value of a numeric expression.",
        },
        SpecFunction {
            function_name: "CEILING",
            parameter_types: vec![DataType::Double],
            return_type: DataType::Double,
            function_type: FunctionType::Scalar,
            description: "Returns the smallest integer greater than or equal to a number.",
        },
        SpecFunction {
            function_name: "FLOOR",
            parameter_types: vec![DataType::Double],
            return_type: DataType::Double,
            function_type: FunctionType::Scalar,
            description: "Returns the largest integer less than or equal to a number.",
        },
        SpecFunction {
            function_name: "POWER",
            parameter_types: vec![DataType::Double, DataType::Double],
            return_type: DataType::Double,
            function_type: FunctionType::Scalar,
            description: "Raises a number to the power of another number.",
        },
        SpecFunction {
            function_name: "ROUND",
            parameter_types: vec![DataType::Double, DataType::Integer],
            return_type: DataType::Double,
            function_type: FunctionType::Scalar,
            description: "Rounds a number to a specified number of decimal places.",
        },
        SpecFunction {
            function_name: "UPPER",
            parameter_types: vec![DataType::Text],
            return_type: DataType::Text,
            function_type: FunctionType::Scalar,
            description: "Converts a string to uppercase.",
        },
        SpecFunction {
            function_name: "LOWER",
            parameter_types: vec![DataType::Text],
            return_type: DataType::Text,
            function_type: FunctionType::Scalar,
            description: "Converts a string to lowercase.",
        },
        SpecFunction {
            function_name: "LENGTH",
            parameter_types: vec![DataType::Text],
            return_type: DataType::Integer,
            function_type: FunctionType::Scalar,
            description: "Returns the number of characters in a string.",
        },
        SpecFunction {
            function_name: "CONCAT",
            parameter_types: vec![DataType::Text, DataType::Text],
            return_type: DataType::Text,
            function_type: FunctionType::Scalar,
            description: "Concatenates two strings.",
        },
        SpecFunction {
            function_name: "SUBSTRING",
            parameter_types: vec![DataType::Text, DataType::Integer, DataType::Integer],
            return_type: DataType::Text,
            function_type: FunctionType::Scalar,
            description: "Extracts a substring from a string.",
        },
        SpecFunction {
            function_name: "CURRENT_DATE",
            parameter_types: vec![],
            return_type: DataType::Date,
            function_type: FunctionType::Scalar,
            description: "Returns the current date.",
        },
        SpecFunction {
            function_name: "CURRENT_TIMESTAMP",
            parameter_types: vec![],
            return_type: DataType::Timestamp,
            function_type: FunctionType::Scalar,
            description: "Returns the current timestamp.",
        },
        SpecFunction {
            function_name: "EXTRACT",
            parameter_types: vec![DataType::Text, DataType::Timestamp],
            return_type: DataType::Integer,
            function_type: FunctionType::Scalar,
            description: "Extracts a field (e.g., YEAR, MONTH) from a date or time value.",
        },
        SpecFunction {
            function_name: "COALESCE",
            parameter_types: vec![DataType::Any, DataType::Any],
            return_type: DataType::Any,
            function_type: FunctionType::Scalar,
            description: "Returns the first non-NULL value in the list.",
        },
        SpecFunction {
            function_name: "NULLIF",
            parameter_types: vec![DataType::Any, DataType::Any],
            return_type: DataType::Any,
            function_type: FunctionType::Scalar,
            description: "Returns NULL if the two arguments are equal; otherwise returns the first.",
        },
        SpecFunction {
            function_name: "COUNT",
            parameter_types: vec![DataType::Any],
            return_type: DataType::Integer,
            function_type: FunctionType::Aggregate,
            description: "Counts the number of input rows.",
        },
        SpecFunction {
            function_name: "AVG",
            parameter_types: vec![DataType::Double],
            return_type: DataType::Double,
            function_type: FunctionType::Aggregate,
            description: "Returns the average value of a numeric expression.",
        },
        SpecFunction {
            function_name: "MIN",
            parameter_types: vec![DataType::Any],
            return_type: DataType::Any,
            function_type: FunctionType::Aggregate,
            description: "Returns the smallest non-null value.",
        },
        SpecFunction {
            function_name: "MAX",
            parameter_types: vec![DataType::Any],
            return_type: DataType::Any,
            function_type: FunctionType::Aggregate,
            description: "Returns the largest non-null value.",
        },
    ]
}

} // verus!
