use vstd::prelude::*;
use vstd::string::*;

verus! {

/// The data type of a column, parameter or value.
#[derive(Debug, Clone, Copy, PartialEq, Eq, Hash, Structural)]
pub enum DataType {
    Boolean,
    Integer,
    BigInt,
    Float,
    Double,
    Decimal { precision: u8, scale: u8 },
    Text,
    Varchar { len: Option<u32> },
    Timestamp,
    Date,
    Time,
    Json,
    Bytes,
    Uuid,
    Null,
    /// Any type (polymorphic parameters and results).
    Any,
    Unknown,
}

impl Default for DataType {
    fn default() -> (res: DataType)
        ensures
            res == DataType::Unknown,
    {
        DataType::Unknown
    }
}

/// The spelling of one decimal digit.
pub open spec fn digit_str(d: nat) -> &'static str {
    if d == 0 { "0" } else if d == 1 { "1" } else if d == 2 { "2" } else if d == 3 { "3" }
    else if d == 4 { "4" } else if d == 5 { "5" } else if d == 6 { "6" } else if d == 7 { "7" }
    else if d == 8 { "8" } else { "9" }
}

/// The decimal spelling of a natural number, without leading zeros.
pub open spec fn decimal(n: nat) -> Seq<char>
    decreases n,
{
    if n < 10 {
        digit_str(n)@
    } else {
        decimal(n / 10) + digit_str(n % 10)@
    }
}

fn digit(d: u32) -> (res: &'static str)
    requires
        d < 10,
    ensures
        res == digit_str(d as nat),
{
    if d == 0 { "0" } else if d == 1 { "1" } else if d == 2 { "2" } else if d == 3 { "3" }
    else if d == 4 { "4" } else if d == 5 { "5" } else if d == 6 { "6" } else if d == 7 { "7" }
    else if d == 8 { "8" } else { "9" }
}

/// The decimal spelling of `n`.
pub fn decimal_string(n: u32) -> (res: String)
    ensures
        res@ == decimal(n as nat),
    decreases n,
{
    if n < 10 {
        String::from_str(digit(n))
    } else {
        let mut s = decimal_string(n / 10);
        s.append(digit(n % 10));
        s
    }
}

/// The lower-case SQL spelling of a data type.
pub open spec fn data_type_name(t: DataType) -> Seq<char> {
    match t {
            DataType::Boolean => "boolean"@,
            DataType::Integer => "integer"@,
            DataType::BigInt => "bigint"@,
            DataType::Float => "float"@,
            DataType::Double => "double"@,
            DataType::Text => "text"@,
            DataType::Timestamp => "timestamp"@,
            DataType::Date => "date"@,
            DataType::Time => "time"@,
            DataType::Json => "json"@,
            DataType::Bytes => "bytes"@,
            DataType::Uuid => "uuid"@,
            DataType::Null => "null"@,
            DataType::Any => "any"@,
            DataType::Unknown => "unknown"@,
            DataType::Decimal { precision, scale } => "decimal("@ + decimal(precision as nat)
                + ", "@ + decimal(scale as nat) + ")"@,
            DataType::Varchar { len } => "varchar("@ + decimal(
                match len {
                    Some(l) => l as nat,
                    None => 0,
                },
            ) + ")"@,
    }
}

impl DataType {
    /// The lower-case SQL spelling of the type, e.g. `decimal(10, 2)`.
    pub fn to_string(&self) -> (res: String)
        ensures
            res@ == data_type_name(*self),
    {
        match self {
            DataType::Boolean => String::from_str("boolean"),
            DataType::Integer => String::from_str("integer"),
            DataType::BigInt => String::from_str("bigint"),
            DataType::Float => String::from_str("float"),
            DataType::Double => String::from_str("double"),
            DataType::Text => String::from_str("text"),
            DataType::Timestamp => String::from_str("timestamp"),
            DataType::Date => String::from_str("date"),
            DataType::Time => String::from_str("time"),
            DataType::Json => String::from_str("json"),
            DataType::Bytes => String::from_str("bytes"),
            DataType::Uuid => String::from_str("uuid"),
            DataType::Null => String::from_str("null"),
            DataType::Any => String::from_str("any"),
            DataType::Unknown => String::from_str("unknown"),
            DataType::Decimal { precision, scale } => {
                let mut s = String::from_str("decimal(");
                s.append(decimal_string(*precision as u32).as_str());
                s.append(", ");
                s.append(decimal_string(*scale as u32).as_str());
                s.append(")");
                s
            },
            DataType::Varchar { len } => {
                let mut s = String::from_str("varchar(");
                let n = match len {
                    Some(l) => *l,
                    None => 0,
                };
                s.append(decimal_string(n).as_str());
                s.append(")");
                s
            },
        }
    }
}

} // verus!
