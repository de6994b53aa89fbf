//! The index database: table names, status codes, record models and the
//! path rules applied to stored directory paths.
pub mod constants;
pub mod schema;
pub mod schema_recovery;
pub mod database;
