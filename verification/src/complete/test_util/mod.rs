pub mod matcher;
pub mod scenario;
pub mod schemas;
pub mod util;
pub mod v2;
