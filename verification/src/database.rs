//! The first layout of the index database, kept for reading older indexes.
pub mod constants;
