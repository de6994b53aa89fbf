//! OneArchive: a file archiving library that bundles many small files into
//! archive volumes, splits large files across volumes, deduplicates content
//! by SHA-256 and keeps its index in a SQLite database.
//!
//! This crate holds the verified core: record models and their status codes,
//! path normalisation, volume planning, deduplication decisions, scan
//! reconciliation and workspace bookkeeping.
pub mod text;
pub mod config;
pub mod database;
pub mod mod_database;
pub mod utils;
pub mod mod_archive;
pub mod archive;
pub mod api;
