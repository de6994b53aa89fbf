//! Services that count what a directory walk found.
use vstd::prelude::*;
use super::models::{
    walk_count, walk_max_depth, walk_total_size, DirectoryStatistics, EntryKind, WalkEntry,
};

verus! {

/// Counting the statistics of a directory tree from the entries of a walk.
pub trait DirectoryStatisticsOperations {
    /// Totals over all walked entries: bytes of the files whose size is
    /// known, number of directories (the start directory included), number of
    /// files, and the largest depth of any entry.
    fn get_directory_statistics(&self, entries: &[WalkEntry]) -> (r: DirectoryStatistics)
        requires
            entries@.len() <= u32::MAX,
            walk_total_size(entries@) <= u64::MAX,
        ensures
            r.total_size == walk_total_size(entries@),
            r.directory_count == walk_count(entries@, EntryKind::Directory),
            r.file_count == walk_count(entries@, EntryKind::File),
            r.max_depth == walk_max_depth(entries@),
    ;
}

} // verus!
