//! Where the cursor stands, and in which clause.
use vstd::prelude::*;

pub mod cursor;
pub use cursor::{detect_cursor, Cursor, Location};

verus! {

/// The clause of a statement that the cursor is in, as the completion
/// providers tell them apart.
#[derive(Debug, Clone, Copy, PartialEq, Eq, Structural)]
pub enum ClauseKind {
    Select,
    From,
    Where,
    GroupBy,
    OrderBy,
    Using,
    /// Any other clause.
    Other,
}

} // verus!
