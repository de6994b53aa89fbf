//! Archiving: splitting file content into chunks, placing chunks into tar
//! volumes of bounded size, deduplicating chunks and files by content hash,
//! and reporting progress.
pub mod models;
pub mod utils_archive;
pub mod trait_archive;
pub mod traits_archive;
pub mod traits;
pub mod impl_archive;
pub mod impls_archive;
