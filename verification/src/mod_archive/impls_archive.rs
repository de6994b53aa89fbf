//! Concrete archiving services.
pub mod archive_in_impl;
pub mod implementation;
