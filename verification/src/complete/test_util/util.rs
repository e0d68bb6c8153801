pub use crate::test_util::{get_caret_cursor, leaky_static_caret_cursor};
