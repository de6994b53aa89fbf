//! The first archiving service, which links files to stored content pieces
//! ("assets") in content order.
use vstd::prelude::*;
use crate::mod_archive::impl_archive::{file_links, ArchiveServices};
use crate::mod_database::schema::{MapFileChunk, ViewFile};

verus! {

/// The first archiving service.
#[derive(Debug, Clone, Copy)]
pub struct ArchiveInServices;

impl ArchiveInServices {
    /// Creates the service.
    pub fn new() -> (r: Self) {
        ArchiveInServices
    }

    /// The index links from a file to its stored pieces: one per piece, in
    /// the given order, numbered from 1, healthy.
    pub fn save_file_indexes(&self, file_info: &ViewFile, asset_ids: &[i64]) -> (r: Vec<MapFileChunk>)
        requires
            asset_ids@.len() < i32::MAX,
        ensures
            r@ == file_links(file_info.file_id, asset_ids@),
    {
        ArchiveServices::save_map_file_chunk_list(file_info, asset_ids)
    }
}

impl Default for ArchiveInServices {
    fn default() -> (r: Self) {
        ArchiveInServices::new()
    }
}

} // verus!
