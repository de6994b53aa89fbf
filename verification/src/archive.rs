//! The first scanning service: statistics of a directory tree.
pub mod services;
