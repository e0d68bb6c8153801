pub mod context;
pub mod provider;
