//! The scanning service: directory statistics and how the records of a
//! rescanned tree are brought up to date.
use vstd::prelude::*;
use crate::mod_archive::models::{
    lemma_walk_prefix, walk_count, walk_max_depth, walk_total_size, DirectoryStatistics,
    EntryKind, WalkEntry,
};
use crate::mod_archive::traits::DirectoryStatisticsOperations;
use crate::mod_database::constants::{DirectoryStatus, FileStatus, RootStatus};
use crate::mod_database::schema::{InfoDirectory, InfoFile, InfoRoot};

verus! {

/// The scanning service.
#[derive(Debug, Clone, Copy)]
pub struct ArchiveServices;

impl ArchiveServices {
    /// Creates the service.
    pub fn new() -> (r: Self) {
        ArchiveServices
    }
}

impl Default for ArchiveServices {
    fn default() -> (r: Self) {
        ArchiveServices::new()
    }
}

impl DirectoryStatisticsOperations for ArchiveServices {
    fn get_directory_statistics(&self, entries: &[WalkEntry]) -> (r: DirectoryStatistics) {
        let mut stats = DirectoryStatistics::default();
        let mut max_depth: u32 = 0;
        let mut i: usize = 0;
        while i < entries.len()
            invariant
                i <= entries@.len(),
                entries@.len() <= u32::MAX,
                walk_total_size(entries@) <= u64::MAX,
                stats.total_size == walk_total_size(entries@.subrange(0, i as int)),
                stats.directory_count == walk_count(entries@.subrange(0, i as int), EntryKind::Directory),
                stats.file_count == walk_count(entries@.subrange(0, i as int), EntryKind::File),
                max_depth == walk_max_depth(entries@.subrange(0, i as int)),
            decreases entries@.len() - i,
        {
            let e = entries[i];
            proof {
                assert(entries@.subrange(0, i + 1).drop_last() =~= entries@.subrange(0, i as int));
                lemma_walk_prefix(entries@, i + 1, EntryKind::Directory);
                lemma_walk_prefix(entries@, i + 1, EntryKind::File);
                lemma_walk_prefix(entries@.subrange(0, i + 1), i + 1, EntryKind::File);
                lemma_walk_prefix(entries@.subrange(0, i + 1), i + 1, EntryKind::Directory);
            }
            if e.depth > max_depth {
                max_depth = e.depth;
            }
            match e.kind {
                EntryKind::Directory => {
                    stats.directory_count = stats.directory_count + 1;
                },
                EntryKind::File => {
                    stats.file_count = stats.file_count + 1;
                    match e.size {
                        Some(n) => {
                            stats.total_size = stats.total_size + n;
                        },
                        None => {},
                    }
                },
                EntryKind::Other => {},
            }
            i = i + 1;
        }
        proof {
            assert(entries@.subrange(0, i as int) =~= entries@);
        }
        stats.max_depth = max_depth;
        stats
    }
}

/// The status a root gets when its scan ends; every directory and file the
/// scan meets gets the matching status.
pub const SCANNED_ROOT_STATUS: RootStatus = RootStatus::WaitToArchive;

/// How the record of the scanned root is obtained.
#[derive(Debug, Clone)]
pub enum RootRecordAction {
    /// The root is indexed under this id: first mark all its directories and
    /// files as waiting to be deleted, then rescan.
    MarkExisting(i64),
    /// The root is new: store this record.
    Create(InfoRoot),
}

/// What to write for a directory met while scanning.
#[derive(Debug, Clone)]
pub enum DirectoryRecordAction {
    /// Rewrite this existing record.
    Update(InfoDirectory),
    /// Store this new record.
    Insert(InfoDirectory),
}

/// What to write for a file met while scanning.
#[derive(Debug, Clone)]
pub enum FileRecordAction {
    /// Rewrite this existing record.
    Update(InfoFile),
    /// Store this new record.
    Insert(InfoFile),
}

/// The root record decision.
pub open spec fn spec_plan_root_record(
    existing: Option<InfoRoot>,
    root_path: String,
    root_name: String,
) -> RootRecordAction {
    match existing {
        Some(root) => RootRecordAction::MarkExisting(root.id.unwrap()),
        None => RootRecordAction::Create(
            InfoRoot {
                id: None,
                root_name,
                root_path,
                status: RootStatus::WaitToArchive,
                created_at: None,
                updated_at: None,
            },
        ),
    }
}

/// The directory record decision: an indexed directory keeps its record and
/// takes the new modification time; a new one is recorded under its relative
/// path. Either way it waits to be archived.
pub open spec fn spec_plan_directory_record(
    existing: Option<InfoDirectory>,
    root_id: i64,
    directory_name: String,
    directory_mtime: i64,
    relative_path: String,
) -> DirectoryRecordAction {
    match existing {
        Some(d) => DirectoryRecordAction::Update(
            InfoDirectory { directory_mtime, status: DirectoryStatus::WaitToArchive, ..d },
        ),
        None => DirectoryRecordAction::Insert(
            InfoDirectory {
                id: None,
                root_id,
                directory_name,
                directory_mtime,
                directory_path: Some(relative_path),
                status: DirectoryStatus::WaitToArchive,
                created_at: None,
                updated_at: None,
            },
        ),
    }
}

/// The file record decision: an indexed file keeps its record and takes the
/// new content hash; a new one is recorded with its size, time and hash.
/// Either way it waits to be archived.
pub open spec fn spec_plan_file_record(
    existing: Option<InfoFile>,
    directory_id: i64,
    file_name: String,
    file_size: u64,
    file_mtime: i64,
    file_hash: Option<String>,
) -> FileRecordAction {
    match existing {
        Some(f) => FileRecordAction::Update(
            InfoFile { file_hash, status: FileStatus::WaitToArchive, ..f },
        ),
        None => FileRecordAction::Insert(
            InfoFile {
                id: None,
                directory_id,
                file_name,
                file_size: file_size as i64,
                file_mtime,
                file_hash,
                status: FileStatus::WaitToArchive,
                created_at: None,
                updated_at: None,
            },
        ),
    }
}

impl ArchiveServices {
    /// Decides how the scanned root is recorded: an indexed root (found by
    /// its path) is reused by id, a new one is created waiting to be archived.
    pub fn plan_root_record(&self, existing: Option<InfoRoot>, root_path: String, root_name: String) -> (r:
        RootRecordAction)
        requires
            existing matches Some(root) ==> root.id is Some,
        ensures
            r == spec_plan_root_record(existing, root_path, root_name),
    {
        match existing {
            Some(root) => match root.id {
                Some(id) => RootRecordAction::MarkExisting(id),
                None => {
                    proof {
                        assert(false);
                    }
                    RootRecordAction::MarkExisting(0)
                },
            },
            None => RootRecordAction::Create(
                InfoRoot::new(root_path, root_name, RootStatus::WaitToArchive),
            ),
        }
    }

    /// Decides what to write for a directory met while scanning, given the
    /// record found for its relative path, if any.
    pub fn plan_directory_record(
        &self,
        existing: Option<InfoDirectory>,
        root_id: i64,
        directory_name: String,
        directory_mtime: i64,
        relative_path: String,
    ) -> (r: DirectoryRecordAction)
        ensures
            r == spec_plan_directory_record(
                existing,
                root_id,
                directory_name,
                directory_mtime,
                relative_path,
            ),
    {
        match existing {
            Some(d) => DirectoryRecordAction::Update(
                InfoDirectory { directory_mtime, status: DirectoryStatus::WaitToArchive, ..d },
            ),
            None => DirectoryRecordAction::Insert(
                InfoDirectory::new(
                    root_id,
                    directory_name,
                    directory_mtime,
                    Some(relative_path),
                    DirectoryStatus::WaitToArchive,
                ),
            ),
        }
    }

    /// Decides what to write for a file met while scanning, given the record
    /// found for its name in its directory, if any.
    pub fn plan_file_record(
        &self,
        existing: Option<InfoFile>,
        directory_id: i64,
        file_name: String,
        file_size: u64,
        file_mtime: i64,
        file_hash: Option<String>,
    ) -> (r: FileRecordAction)
        ensures
            r == spec_plan_file_record(
                existing,
                directory_id,
                file_name,
                file_size,
                file_mtime,
                file_hash,
            ),
    {
        match existing {
            Some(f) => FileRecordAction::Update(
                InfoFile { file_hash, status: FileStatus::WaitToArchive, ..f },
            ),
            None => FileRecordAction::Insert(
                InfoFile::new(
                    directory_id,
                    file_name,
                    file_size as i64,
                    file_mtime,
                    file_hash,
                    FileStatus::WaitToArchive,
                ),
            ),
        }
    }
}

/// A scan leaves every root, directory and file it meets waiting to be
/// archived; an indexed directory or file keeps its row id, its place and its
/// name, and an indexed file takes the newly computed hash.
pub proof fn lemma_scan_marks_wait_to_archive(
    root: Option<InfoRoot>,
    root_path: String,
    root_name: String,
    directory: Option<InfoDirectory>,
    root_id: i64,
    directory_name: String,
    directory_mtime: i64,
    relative_path: String,
    file: Option<InfoFile>,
    directory_id: i64,
    file_name: String,
    file_size: u64,
    file_mtime: i64,
    file_hash: Option<String>,
)
    ensures
        spec_plan_root_record(root, root_path, root_name) matches RootRecordAction::Create(r)
            ==> r.status == SCANNED_ROOT_STATUS && root is None && r.id is None && r.root_path == root_path
            && r.root_name == root_name,
        spec_plan_root_record(root, root_path, root_name) matches RootRecordAction::MarkExisting(id)
            ==> (root matches Some(old) && (old.id is Some ==> old.id == Some(id))),
        match spec_plan_directory_record(
            directory,
            root_id,
            directory_name,
            directory_mtime,
            relative_path,
        ) {
            DirectoryRecordAction::Update(d) => d.status == DirectoryStatus::WaitToArchive && (
            directory matches Some(old) && d.id == old.id && d.root_id == old.root_id
                && d.directory_name == old.directory_name
                && d.directory_path == old.directory_path && d.directory_mtime == directory_mtime),
            DirectoryRecordAction::Insert(d) => d.status == DirectoryStatus::WaitToArchive
                && directory is None && d.id is None && d.root_id == root_id
                && d.directory_name == directory_name && d.directory_mtime == directory_mtime
                && d.directory_path == Some(relative_path),
        },
        match spec_plan_file_record(file, directory_id, file_name, file_size, file_mtime, file_hash) {
            FileRecordAction::Update(f) => f.status == FileStatus::WaitToArchive && (
            file matches Some(old) && f.id == old.id && f.directory_id == old.directory_id
                && f.file_name == old.file_name && f.file_size == old.file_size
                && f.file_mtime == old.file_mtime && f.file_hash == file_hash),
            FileRecordAction::Insert(f) => f.status == FileStatus::WaitToArchive && file is None
                && f.id is None && f.directory_id == directory_id && f.file_name == file_name
                && f.file_size == file_size as i64 && f.file_mtime == file_mtime
                && f.file_hash == file_hash,
        },
{
}

} // verus!
