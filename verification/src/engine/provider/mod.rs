pub mod column;
pub mod table;
