//! The archiving state under the name used by the first archiving service.
pub use super::trait_archive::ArchiveContext;
