pub mod types;
pub mod queries;
