//! Record models of the index database.
use vstd::prelude::*;
use super::constants::{
    ArchiveStatus, ChunkStatus, DirectoryStatus, FileStatus, MapFileChunkStatus, RootStatus,
};
use crate::utils::unix_timestamp_now;

verus! {

/// A scanned root directory.
#[derive(Debug, Clone)]
pub struct InfoRoot {
    /// Row id, `None` until stored.
    pub id: Option<i64>,
    pub root_name: String,
    pub root_path: String,
    pub status: RootStatus,
    pub created_at: Option<i64>,
    pub updated_at: Option<i64>,
}

impl InfoRoot {
    /// A root record that has not been stored yet.
    pub fn new(root_path: String, root_name: String, status: RootStatus) -> (r: Self)
        ensures
            r.id is None,
            r.root_name == root_name,
            r.root_path == root_path,
            r.status == status,
            r.created_at is None,
            r.updated_at is None,
    {
        InfoRoot { id: None, root_name, root_path, status, created_at: None, updated_at: None }
    }
}

/// A directory below a root; its path is relative to the root.
#[derive(Debug, Clone)]
pub struct InfoDirectory {
    pub id: Option<i64>,
    pub root_id: i64,
    pub directory_name: String,
    /// Modification time in milliseconds since the Unix epoch.
    pub directory_mtime: i64,
    pub directory_path: Option<String>,
    pub status: DirectoryStatus,
    pub created_at: Option<i64>,
    pub updated_at: Option<i64>,
}

impl InfoDirectory {
    /// A directory record that has not been stored yet.
    pub fn new(
        root_id: i64,
        directory_name: String,
        directory_mtime: i64,
        directory_path: Option<String>,
        status: DirectoryStatus,
    ) -> (r: Self)
        ensures
            r.id is None,
            r.root_id == root_id,
            r.directory_name == directory_name,
            r.directory_mtime == directory_mtime,
            r.directory_path == directory_path,
            r.status == status,
            r.created_at is None,
            r.updated_at is None,
    {
        InfoDirectory {
            id: None,
            root_id,
            directory_name,
            directory_mtime,
            directory_path,
            status,
            created_at: None,
            updated_at: None,
        }
    }
}

/// A file inside an indexed directory.
#[derive(Debug, Clone)]
pub struct InfoFile {
    pub id: Option<i64>,
    pub directory_id: i64,
    pub file_name: String,
    pub file_size: i64,
    /// Modification time in milliseconds since the Unix epoch.
    pub file_mtime: i64,
    /// Lower-case hexadecimal SHA-256 of the content, when it could be read.
    pub file_hash: Option<String>,
    pub status: FileStatus,
    pub created_at: Option<i64>,
    pub updated_at: Option<i64>,
}

impl InfoFile {
    /// A file record that has not been stored yet.
    pub fn new(
        directory_id: i64,
        file_name: String,
        file_size: i64,
        file_mtime: i64,
        file_hash: Option<String>,
        status: FileStatus,
    ) -> (r: Self)
        ensures
            r.id is None,
            r.directory_id == directory_id,
            r.file_name == file_name,
            r.file_size == file_size,
            r.file_mtime == file_mtime,
            r.file_hash == file_hash,
            r.status == status,
            r.created_at is None,
            r.updated_at is None,
    {
        InfoFile {
            id: None,
            directory_id,
            file_name,
            file_size,
            file_mtime,
            file_hash,
            status,
            created_at: None,
            updated_at: None,
        }
    }
}

/// An archive volume (one tar file).
#[derive(Debug, Clone)]
pub struct ArchiveMetadata {
    pub id: Option<i64>,
    pub archive_name: String,
    pub archive_uri: String,
    pub archive_limit_size: i64,
    pub archive_hash: Option<String>,
    pub archive_size: Option<i64>,
    pub is_compressed: i32,
    pub compressed_algorithm: Option<String>,
    pub is_encrypted: i32,
    pub encryption_algorithm: Option<String>,
    pub status: ArchiveStatus,
    pub created_at: i64,
    pub updated_at: i64,
}

impl ArchiveMetadata {
    /// A volume record that has not been stored yet, stamped with the current
    /// time (both timestamps read from the clock); `None` when the system
    /// clock cannot be read as a time after the Unix epoch.
    pub fn new(
        archive_uri: String,
        archive_name: String,
        archive_limit_size: i64,
        is_compressed: i32,
        is_encrypted: i32,
        status: ArchiveStatus,
    ) -> (r: Option<Self>)
        ensures
            r matches Some(m) ==> {
                &&& m.id is None
                &&& m.archive_name == archive_name
                &&& m.archive_uri == archive_uri
                &&& m.archive_limit_size == archive_limit_size
                &&& m.archive_hash is None
                &&& m.archive_size is None
                &&& m.is_compressed == is_compressed
                &&& m.compressed_algorithm is None
                &&& m.is_encrypted == is_encrypted
                &&& m.encryption_algorithm is None
                &&& m.status == status
                &&& m.created_at >= 0
                &&& m.updated_at >= 0
            },
    {
        let created_at = match unix_timestamp_now() {
            Some(t) => t,
            None => return None,
        };
        let updated_at = match unix_timestamp_now() {
            Some(t) => t,
            None => return None,
        };
        Some(ArchiveMetadata {
            id: None,
            archive_name,
            archive_uri,
            archive_limit_size,
            archive_hash: None,
            archive_size: None,
            is_compressed,
            compressed_algorithm: None,
            is_encrypted,
            encryption_algorithm: None,
            status,
            created_at,
            updated_at,
        })
    }
}

/// A stored piece of file content; chunks are named by their content hash.
#[derive(Debug, Clone)]
pub struct ArchiveChunk {
    pub id: Option<i64>,
    pub archive_id: i64,
    pub chunk_name: String,
    pub chunk_size: i64,
    pub chunk_hash: String,
    /// Modification time in milliseconds since the Unix epoch.
    pub chunk_mtime: i64,
    pub chunk_relative_path: String,
    pub status: ChunkStatus,
    pub created_at: Option<i64>,
    pub updated_at: Option<i64>,
}

impl ArchiveChunk {
    /// A chunk record that has not been stored yet.
    pub fn new(
        archive_id: i64,
        chunk_name: String,
        chunk_size: i64,
        chunk_hash: String,
        chunk_mtime: i64,
        chunk_relative_path: String,
        status: ChunkStatus,
    ) -> (r: Self)
        ensures
            r.id is None,
            r.archive_id == archive_id,
            r.chunk_name == chunk_name,
            r.chunk_size == chunk_size,
            r.chunk_hash == chunk_hash,
            r.chunk_mtime == chunk_mtime,
            r.chunk_relative_path == chunk_relative_path,
            r.status == status,
            r.created_at is None,
            r.updated_at is None,
    {
        ArchiveChunk {
            id: None,
            archive_id,
            chunk_name,
            chunk_size,
            chunk_hash,
            chunk_mtime,
            chunk_relative_path,
            status,
            created_at: None,
            updated_at: None,
        }
    }
}

/// Links a file to one of its chunks; `volume_order` numbers the chunks of a
/// file from 1 in content order.
#[derive(Debug, Clone)]
pub struct MapFileChunk {
    pub id: Option<i64>,
    pub file_id: i64,
    pub chunk_id: i64,
    pub volume_order: i32,
    pub status: MapFileChunkStatus,
    pub created_at: Option<i64>,
    pub updated_at: Option<i64>,
}

impl MapFileChunk {
    /// A link record that has not been stored yet.
    pub fn new(file_id: i64, chunk_id: i64, volume_order: i32, status: MapFileChunkStatus) -> (r:
        Self)
        ensures
            r.id is None,
            r.file_id == file_id,
            r.chunk_id == chunk_id,
            r.volume_order == volume_order,
            r.status == status,
            r.created_at is None,
            r.updated_at is None,
    {
        MapFileChunk {
            id: None,
            file_id,
            chunk_id,
            volume_order,
            status,
            created_at: None,
            updated_at: None,
        }
    }
}

/// A row of the `view_file` view: a file together with its directory and root.
#[derive(Debug, Clone)]
pub struct ViewFile {
    pub root_id: Option<i64>,
    pub root_path: String,
    pub root_status: String,
    pub directory_id: i64,
    pub directory_path: Option<String>,
    pub directory_mtime: i64,
    pub directory_status: String,
    pub file_id: i64,
    pub file_name: String,
    pub file_size: i64,
    pub file_mtime: i64,
    pub file_hash: Option<String>,
    pub file_status: String,
}

/// A row of the `view_chunk` view: a chunk together with its volume and the
/// file that links to it.
#[derive(Debug, Clone)]
pub struct ViewChunk {
    pub archive_id: Option<i64>,
    pub archive_uri: String,
    pub archive_name: String,
    pub archive_status: String,
    pub chunk_id: i64,
    pub chunk_name: String,
    pub chunk_size: i64,
    pub chunk_hash: String,
    pub chunk_mtime: i64,
    pub chunk_relative_path: String,
    pub chunk_status: String,
    pub file_id: Option<i64>,
    pub volume_order: Option<i32>,
}

/// The values needed to create a volume record.
#[derive(Debug, Clone)]
pub struct CreateArchiveMetadataParams {
    pub archive_uri: String,
    pub archive_name: String,
    pub archive_limit_size: u64,
    pub is_compressed: i8,
    pub is_encrypted: i8,
    pub compression_algorithm: Option<String>,
    pub encryption_algorithm: Option<String>,
    pub status: ArchiveStatus,
}

} // verus!
