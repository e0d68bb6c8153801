pub mod test_util;
pub mod types;
