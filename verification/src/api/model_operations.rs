//! Models of the archive, extract and scan operations seen by the user
//! interface.
use vstd::prelude::*;

verus! {

/// An archive volume as listed to the user.
#[derive(Debug, Clone)]
pub struct ArchiveFile {
    pub id: i64,
    pub archive_name: String,
    pub archive_size: i64,
}

/// A scanned root directory as listed to the user.
#[derive(Debug, Clone)]
pub struct RootInfo {
    pub id: i64,
    pub root_path: String,
    pub root_name: String,
}

/// How far an archive run has come.
#[derive(Debug, Clone)]
pub struct ArchiveProgress {
    pub total_files: usize,
    pub processed_files: usize,
    pub processed_bytes: u64,
    pub total_bytes: u64,
    pub current_file: Option<String>,
    pub completed: bool,
    pub error: Option<String>,
}

/// What to extract and where.
#[derive(Debug, Clone)]
pub struct ExtractTask {
    pub root_id: i64,
    pub target_path: String,
    pub overwrite: bool,
}

/// How far an extract run has come.
#[derive(Debug, Clone)]
pub struct ExtractProgress {
    pub total_files: usize,
    pub processed_files: usize,
    pub current_file: Option<String>,
    pub completed: bool,
    pub error: Option<String>,
}

/// The parameters of an archive run.
#[derive(Debug, Clone)]
pub struct ArchiveParams {
    pub root_dir: String,
    pub archive_dir: String,
    pub archive_prefix: String,
    pub db_path: String,
    pub archive_limit_size: i64,
}

/// The parameters of a scan run.
#[derive(Debug, Clone)]
pub struct ScanParams {
    pub root_path: String,
    pub db_path: String,
}

} // verus!
