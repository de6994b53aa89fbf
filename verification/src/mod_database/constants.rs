//! Table names and the status codes stored in the index database.
use vstd::prelude::*;
use crate::text::str_eq;

verus! {

/// Tables and views of the index database.
#[derive(Debug, Clone, Copy, PartialEq, Eq, Structural)]
pub enum DatabaseTableName {
    InfoRoot,
    InfoDirectory,
    InfoFile,
    ArchiveMetadata,
    ArchiveChunk,
    MapFileChunk,
    DirectoryTree,
    ViewFile,
    ViewChunk,
}

impl DatabaseTableName {
    /// The table name as written in SQL.
    pub open spec fn spec_as_str(self) -> Seq<char> {
        match self {
            DatabaseTableName::InfoRoot => "info_root"@,
            DatabaseTableName::InfoDirectory => "info_directory"@,
            DatabaseTableName::InfoFile => "info_file"@,
            DatabaseTableName::ArchiveMetadata => "archive_metadata"@,
            DatabaseTableName::ArchiveChunk => "archive_chunk"@,
            DatabaseTableName::MapFileChunk => "map_file_chunk"@,
            DatabaseTableName::DirectoryTree => "directory_tree"@,
            DatabaseTableName::ViewFile => "view_file"@,
            DatabaseTableName::ViewChunk => "view_chunk"@,
        }
    }

    /// The table that `s` names, if any.
    pub open spec fn spec_from_str(s: Seq<char>) -> Option<DatabaseTableName> {
        if s == "info_root"@ {
            Some(DatabaseTableName::InfoRoot)
        } else if s == "info_directory"@ {
            Some(DatabaseTableName::InfoDirectory)
        } else if s == "info_file"@ {
            Some(DatabaseTableName::InfoFile)
        } else if s == "archive_metadata"@ {
            Some(DatabaseTableName::ArchiveMetadata)
        } else if s == "archive_chunk"@ {
            Some(DatabaseTableName::ArchiveChunk)
        } else if s == "map_file_chunk"@ {
            Some(DatabaseTableName::MapFileChunk)
        } else if s == "directory_tree"@ {
            Some(DatabaseTableName::DirectoryTree)
        } else if s == "view_file"@ {
            Some(DatabaseTableName::ViewFile)
        } else if s == "view_chunk"@ {
            Some(DatabaseTableName::ViewChunk)
        } else {
            None
        }
    }

    /// Returns the table name.
    pub fn as_str(&self) -> (r: &'static str)
        ensures
            r@ == self.spec_as_str(),
    {
        match self {
            DatabaseTableName::InfoRoot => "info_root",
            DatabaseTableName::InfoDirectory => "info_directory",
            DatabaseTableName::InfoFile => "info_file",
            DatabaseTableName::ArchiveMetadata => "archive_metadata",
            DatabaseTableName::ArchiveChunk => "archive_chunk",
            DatabaseTableName::MapFileChunk => "map_file_chunk",
            DatabaseTableName::DirectoryTree => "directory_tree",
            DatabaseTableName::ViewFile => "view_file",
            DatabaseTableName::ViewChunk => "view_chunk",
        }
    }

    /// Looks a table up by its name; an unknown name gives `None`.
    pub fn from_str(s: &str) -> (r: Option<Self>)
        ensures
            r == DatabaseTableName::spec_from_str(s@),
    {
        if str_eq(s, "info_root") {
            Some(DatabaseTableName::InfoRoot)
        } else if str_eq(s, "info_directory") {
            Some(DatabaseTableName::InfoDirectory)
        } else if str_eq(s, "info_file") {
            Some(DatabaseTableName::InfoFile)
        } else if str_eq(s, "archive_metadata") {
            Some(DatabaseTableName::ArchiveMetadata)
        } else if str_eq(s, "archive_chunk") {
            Some(DatabaseTableName::ArchiveChunk)
        } else if str_eq(s, "map_file_chunk") {
            Some(DatabaseTableName::MapFileChunk)
        } else if str_eq(s, "directory_tree") {
            Some(DatabaseTableName::DirectoryTree)
        } else if str_eq(s, "view_file") {
            Some(DatabaseTableName::ViewFile)
        } else if str_eq(s, "view_chunk") {
            Some(DatabaseTableName::ViewChunk)
        } else {
            None
        }
    }
}

/// Looking up the name of a table gives that table back, and a name that
/// is found is the name of the table it finds.
pub proof fn lemma_database_table_name_round_trip(t: DatabaseTableName, s: Seq<char>)
    ensures
        DatabaseTableName::spec_from_str(t.spec_as_str()) == Some(t),
        DatabaseTableName::spec_from_str(s) matches Some(u) ==> u.spec_as_str() == s,
{
    reveal_strlit("info_root");
    assert("info_root"@.len() == 9);
    reveal_strlit("info_directory");
    assert("info_directory"@.len() == 14);
    reveal_strlit("info_file");
    assert("info_file"@.len() == 9);
    reveal_strlit("archive_metadata");
    assert("archive_metadata"@.len() == 16);
    reveal_strlit("archive_chunk");
    assert("archive_chunk"@.len() == 13);
    reveal_strlit("map_file_chunk");
    assert("map_file_chunk"@.len() == 14);
    reveal_strlit("directory_tree");
    assert("directory_tree"@.len() == 14);
    reveal_strlit("view_file");
    assert("view_file"@.len() == 9);
    reveal_strlit("view_chunk");
    assert("view_chunk"@.len() == 10);
    assert("info_root"@[5] != "info_file"@[5]);
    assert("info_root"@[0] != "view_file"@[0]);
    assert("info_directory"@[0] != "map_file_chunk"@[0]);
    assert("info_directory"@[0] != "directory_tree"@[0]);
    assert("info_file"@[0] != "view_file"@[0]);
    assert("map_file_chunk"@[0] != "directory_tree"@[0]);
}
/// Status of a scanned root directory.
#[derive(Debug, Clone, Copy, PartialEq, Eq, Structural)]
pub enum RootStatus {
    Health,
    WaitToScan,
    WaitToArchive,
    InScanning,
    InArchiving,
    ErrorScanningFailed,
    ErrorArchivingFailed,
    WaitToDelete,
}

impl RootStatus {
    /// The text stored in the database for this status.
    pub open spec fn spec_as_str(self) -> Seq<char> {
        match self {
            RootStatus::Health => "Health"@,
            RootStatus::WaitToScan => "WAIT_TO_SCAN"@,
            RootStatus::WaitToArchive => "WaitToArchive"@,
            RootStatus::InScanning => "IN_SCANNING"@,
            RootStatus::InArchiving => "IN_ARCHIVING"@,
            RootStatus::ErrorScanningFailed => "ERROR_SCANNING_FAILED"@,
            RootStatus::ErrorArchivingFailed => "ERROR_ARCHIVING_FAILED"@,
            RootStatus::WaitToDelete => "WAIT_TO_DELETE"@,
        }
    }

    /// The status stored as `s`; text that names no status reads as `Health`.
    pub open spec fn spec_from_str(s: Seq<char>) -> RootStatus {
        if s == "Health"@ {
            RootStatus::Health
        } else if s == "WAIT_TO_SCAN"@ {
            RootStatus::WaitToScan
        } else if s == "WaitToArchive"@ {
            RootStatus::WaitToArchive
        } else if s == "IN_SCANNING"@ {
            RootStatus::InScanning
        } else if s == "IN_ARCHIVING"@ {
            RootStatus::InArchiving
        } else if s == "ERROR_SCANNING_FAILED"@ {
            RootStatus::ErrorScanningFailed
        } else if s == "ERROR_ARCHIVING_FAILED"@ {
            RootStatus::ErrorArchivingFailed
        } else if s == "WAIT_TO_DELETE"@ {
            RootStatus::WaitToDelete
        } else {
            RootStatus::Health
        }
    }

    /// Returns the text stored in the database for this status.
    pub fn as_str(&self) -> (r: &'static str)
        ensures
            r@ == self.spec_as_str(),
    {
        match self {
            RootStatus::Health => "Health",
            RootStatus::WaitToScan => "WAIT_TO_SCAN",
            RootStatus::WaitToArchive => "WaitToArchive",
            RootStatus::InScanning => "IN_SCANNING",
            RootStatus::InArchiving => "IN_ARCHIVING",
            RootStatus::ErrorScanningFailed => "ERROR_SCANNING_FAILED",
            RootStatus::ErrorArchivingFailed => "ERROR_ARCHIVING_FAILED",
            RootStatus::WaitToDelete => "WAIT_TO_DELETE",
        }
    }

    /// Reads a stored status; text that names no status reads as `Health`.
    pub fn from_str(s: &str) -> (r: Self)
        ensures
            r == RootStatus::spec_from_str(s@),
    {
        if str_eq(s, "Health") {
            RootStatus::Health
        } else if str_eq(s, "WAIT_TO_SCAN") {
            RootStatus::WaitToScan
        } else if str_eq(s, "WaitToArchive") {
            RootStatus::WaitToArchive
        } else if str_eq(s, "IN_SCANNING") {
            RootStatus::InScanning
        } else if str_eq(s, "IN_ARCHIVING") {
            RootStatus::InArchiving
        } else if str_eq(s, "ERROR_SCANNING_FAILED") {
            RootStatus::ErrorScanningFailed
        } else if str_eq(s, "ERROR_ARCHIVING_FAILED") {
            RootStatus::ErrorArchivingFailed
        } else if str_eq(s, "WAIT_TO_DELETE") {
            RootStatus::WaitToDelete
        } else {
            RootStatus::Health
        }
    }
}

/// Reading back the stored text of a status gives the same status.
pub proof fn lemma_root_status_round_trip(st: RootStatus)
    ensures
        RootStatus::spec_from_str(st.spec_as_str()) == st,
{
    reveal_strlit("Health");
    assert("Health"@.len() == 6);
    reveal_strlit("WAIT_TO_SCAN");
    assert("WAIT_TO_SCAN"@.len() == 12);
    reveal_strlit("WaitToArchive");
    assert("WaitToArchive"@.len() == 13);
    reveal_strlit("IN_SCANNING");
    assert("IN_SCANNING"@.len() == 11);
    reveal_strlit("IN_ARCHIVING");
    assert("IN_ARCHIVING"@.len() == 12);
    reveal_strlit("ERROR_SCANNING_FAILED");
    assert("ERROR_SCANNING_FAILED"@.len() == 21);
    reveal_strlit("ERROR_ARCHIVING_FAILED");
    assert("ERROR_ARCHIVING_FAILED"@.len() == 22);
    reveal_strlit("WAIT_TO_DELETE");
    assert("WAIT_TO_DELETE"@.len() == 14);
    assert("WAIT_TO_SCAN"@[0] != "IN_ARCHIVING"@[0]);
}
/// Status of an indexed file.
#[derive(Debug, Clone, Copy, PartialEq, Eq, Structural)]
pub enum FileStatus {
    Health,
    WaitToArchive,
    WaitToDelete,
    InScanning,
    InArchiving,
    ErrorScanningFailed,
    ErrorArchivingFailed,
}

impl FileStatus {
    /// The text stored in the database for this status.
    pub open spec fn spec_as_str(self) -> Seq<char> {
        match self {
            FileStatus::Health => "Health"@,
            FileStatus::WaitToArchive => "WaitToArchive"@,
            FileStatus::WaitToDelete => "WAIT_TO_DELETE"@,
            FileStatus::InScanning => "IN_SCANNING"@,
            FileStatus::InArchiving => "IN_ARCHIVING"@,
            FileStatus::ErrorScanningFailed => "ERROR_SCANNING_FAILED"@,
            FileStatus::ErrorArchivingFailed => "ERROR_ARCHIVING_FAILED"@,
        }
    }

    /// The status stored as `s`; text that names no status reads as `Health`.
    pub open spec fn spec_from_str(s: Seq<char>) -> FileStatus {
        if s == "Health"@ {
            FileStatus::Health
        } else if s == "WaitToArchive"@ {
            FileStatus::WaitToArchive
        } else if s == "WAIT_TO_DELETE"@ {
            FileStatus::WaitToDelete
        } else if s == "IN_SCANNING"@ {
            FileStatus::InScanning
        } else if s == "IN_ARCHIVING"@ {
            FileStatus::InArchiving
        } else if s == "ERROR_SCANNING_FAILED"@ {
            FileStatus::ErrorScanningFailed
        } else if s == "ERROR_ARCHIVING_FAILED"@ {
            FileStatus::ErrorArchivingFailed
        } else {
            FileStatus::Health
        }
    }

    /// Returns the text stored in the database for this status.
    pub fn as_str(&self) -> (r: &'static str)
        ensures
            r@ == self.spec_as_str(),
    {
        match self {
            FileStatus::Health => "Health",
            FileStatus::WaitToArchive => "WaitToArchive",
            FileStatus::WaitToDelete => "WAIT_TO_DELETE",
            FileStatus::InScanning => "IN_SCANNING",
            FileStatus::InArchiving => "IN_ARCHIVING",
            FileStatus::ErrorScanningFailed => "ERROR_SCANNING_FAILED",
            FileStatus::ErrorArchivingFailed => "ERROR_ARCHIVING_FAILED",
        }
    }

    /// Reads a stored status; text that names no status reads as `Health`.
    pub fn from_str(s: &str) -> (r: Self)
        ensures
            r == FileStatus::spec_from_str(s@),
    {
        if str_eq(s, "Health") {
            FileStatus::Health
        } else if str_eq(s, "WaitToArchive") {
            FileStatus::WaitToArchive
        } else if str_eq(s, "WAIT_TO_DELETE") {
            FileStatus::WaitToDelete
        } else if str_eq(s, "IN_SCANNING") {
            FileStatus::InScanning
        } else if str_eq(s, "IN_ARCHIVING") {
            FileStatus::InArchiving
        } else if str_eq(s, "ERROR_SCANNING_FAILED") {
            FileStatus::ErrorScanningFailed
        } else if str_eq(s, "ERROR_ARCHIVING_FAILED") {
            FileStatus::ErrorArchivingFailed
        } else {
            FileStatus::Health
        }
    }
}

/// Reading back the stored text of a status gives the same status.
pub proof fn lemma_file_status_round_trip(st: FileStatus)
    ensures
        FileStatus::spec_from_str(st.spec_as_str()) == st,
{
    reveal_strlit("Health");
    assert("Health"@.len() == 6);
    reveal_strlit("WaitToArchive");
    assert("WaitToArchive"@.len() == 13);
    reveal_strlit("WAIT_TO_DELETE");
    assert("WAIT_TO_DELETE"@.len() == 14);
    reveal_strlit("IN_SCANNING");
    assert("IN_SCANNING"@.len() == 11);
    reveal_strlit("IN_ARCHIVING");
    assert("IN_ARCHIVING"@.len() == 12);
    reveal_strlit("ERROR_SCANNING_FAILED");
    assert("ERROR_SCANNING_FAILED"@.len() == 21);
    reveal_strlit("ERROR_ARCHIVING_FAILED");
    assert("ERROR_ARCHIVING_FAILED"@.len() == 22);
}
/// Status of an indexed directory.
#[derive(Debug, Clone, Copy, PartialEq, Eq, Structural)]
pub enum DirectoryStatus {
    Health,
    WaitToArchive,
    WaitToDelete,
    InScanning,
    InArchiving,
    ErrorScanningFailed,
    ErrorArchivingFailed,
}

impl DirectoryStatus {
    /// The text stored in the database for this status.
    pub open spec fn spec_as_str(self) -> Seq<char> {
        match self {
            DirectoryStatus::Health => "Health"@,
            DirectoryStatus::WaitToArchive => "WaitToArchive"@,
            DirectoryStatus::WaitToDelete => "WAIT_TO_DELETE"@,
            DirectoryStatus::InScanning => "IN_SCANNING"@,
            DirectoryStatus::InArchiving => "IN_ARCHIVING"@,
            DirectoryStatus::ErrorScanningFailed => "ERROR_SCANNING_FAILED"@,
            DirectoryStatus::ErrorArchivingFailed => "ERROR_ARCHIVING_FAILED"@,
        }
    }

    /// The status stored as `s`; text that names no status reads as `Health`.
    pub open spec fn spec_from_str(s: Seq<char>) -> DirectoryStatus {
        if s == "Health"@ {
            DirectoryStatus::Health
        } else if s == "WaitToArchive"@ {
            DirectoryStatus::WaitToArchive
        } else if s == "WAIT_TO_DELETE"@ {
            DirectoryStatus::WaitToDelete
        } else if s == "IN_SCANNING"@ {
            DirectoryStatus::InScanning
        } else if s == "IN_ARCHIVING"@ {
            DirectoryStatus::InArchiving
        } else if s == "ERROR_SCANNING_FAILED"@ {
            DirectoryStatus::ErrorScanningFailed
        } else if s == "ERROR_ARCHIVING_FAILED"@ {
            DirectoryStatus::ErrorArchivingFailed
        } else {
            DirectoryStatus::Health
        }
    }

    /// Returns the text stored in the database for this status.
    pub fn as_str(&self) -> (r: &'static str)
        ensures
            r@ == self.spec_as_str(),
    {
        match self {
            DirectoryStatus::Health => "Health",
            DirectoryStatus::WaitToArchive => "WaitToArchive",
            DirectoryStatus::WaitToDelete => "WAIT_TO_DELETE",
            DirectoryStatus::InScanning => "IN_SCANNING",
            DirectoryStatus::InArchiving => "IN_ARCHIVING",
            DirectoryStatus::ErrorScanningFailed => "ERROR_SCANNING_FAILED",
            DirectoryStatus::ErrorArchivingFailed => "ERROR_ARCHIVING_FAILED",
        }
    }

    /// Reads a stored status; text that names no status reads as `Health`.
    pub fn from_str(s: &str) -> (r: Self)
        ensures
            r == DirectoryStatus::spec_from_str(s@),
    {
        if str_eq(s, "Health") {
            DirectoryStatus::Health
        } else if str_eq(s, "WaitToArchive") {
            DirectoryStatus::WaitToArchive
        } else if str_eq(s, "WAIT_TO_DELETE") {
            DirectoryStatus::WaitToDelete
        } else if str_eq(s, "IN_SCANNING") {
            DirectoryStatus::InScanning
        } else if str_eq(s, "IN_ARCHIVING") {
            DirectoryStatus::InArchiving
        } else if str_eq(s, "ERROR_SCANNING_FAILED") {
            DirectoryStatus::ErrorScanningFailed
        } else if str_eq(s, "ERROR_ARCHIVING_FAILED") {
            DirectoryStatus::ErrorArchivingFailed
        } else {
            DirectoryStatus::Health
        }
    }
}

/// Reading back the stored text of a status gives the same status.
pub proof fn lemma_directory_status_round_trip(st: DirectoryStatus)
    ensures
        DirectoryStatus::spec_from_str(st.spec_as_str()) == st,
{
    reveal_strlit("Health");
    assert("Health"@.len() == 6);
    reveal_strlit("WaitToArchive");
    assert("WaitToArchive"@.len() == 13);
    reveal_strlit("WAIT_TO_DELETE");
    assert("WAIT_TO_DELETE"@.len() == 14);
    reveal_strlit("IN_SCANNING");
    assert("IN_SCANNING"@.len() == 11);
    reveal_strlit("IN_ARCHIVING");
    assert("IN_ARCHIVING"@.len() == 12);
    reveal_strlit("ERROR_SCANNING_FAILED");
    assert("ERROR_SCANNING_FAILED"@.len() == 21);
    reveal_strlit("ERROR_ARCHIVING_FAILED");
    assert("ERROR_ARCHIVING_FAILED"@.len() == 22);
}
/// Status of an archive volume.
#[derive(Debug, Clone, Copy, PartialEq, Eq, Structural)]
pub enum ArchiveStatus {
    Health,
    InArchiving,
}

impl ArchiveStatus {
    /// The text stored in the database for this status.
    pub open spec fn spec_as_str(self) -> Seq<char> {
        match self {
            ArchiveStatus::Health => "Health"@,
            ArchiveStatus::InArchiving => "InArchiving"@,
        }
    }

    /// The status stored as `s`; text that names no status reads as `Health`.
    pub open spec fn spec_from_str(s: Seq<char>) -> ArchiveStatus {
        if s == "Health"@ {
            ArchiveStatus::Health
        } else if s == "InArchiving"@ {
            ArchiveStatus::InArchiving
        } else {
            ArchiveStatus::Health
        }
    }

    /// Returns the text stored in the database for this status.
    pub fn as_str(&self) -> (r: &'static str)
        ensures
            r@ == self.spec_as_str(),
    {
        match self {
            ArchiveStatus::Health => "Health",
            ArchiveStatus::InArchiving => "InArchiving",
        }
    }

    /// Reads a stored status; text that names no status reads as `Health`.
    pub fn from_str(s: &str) -> (r: Self)
        ensures
            r == ArchiveStatus::spec_from_str(s@),
    {
        if str_eq(s, "Health") {
            ArchiveStatus::Health
        } else if str_eq(s, "InArchiving") {
            ArchiveStatus::InArchiving
        } else {
            ArchiveStatus::Health
        }
    }
}

/// Reading back the stored text of a status gives the same status.
pub proof fn lemma_archive_status_round_trip(st: ArchiveStatus)
    ensures
        ArchiveStatus::spec_from_str(st.spec_as_str()) == st,
{
    reveal_strlit("Health");
    assert("Health"@.len() == 6);
    reveal_strlit("InArchiving");
    assert("InArchiving"@.len() == 11);
}
/// Status of a stored data chunk.
#[derive(Debug, Clone, Copy, PartialEq, Eq, Structural)]
pub enum ChunkStatus {
    Health,
    WaitToArchive,
}

impl ChunkStatus {
    /// The text stored in the database for this status.
    pub open spec fn spec_as_str(self) -> Seq<char> {
        match self {
            ChunkStatus::Health => "Health"@,
            ChunkStatus::WaitToArchive => "WaitToArchive"@,
        }
    }

    /// The status stored as `s`; text that names no status reads as `Health`.
    pub open spec fn spec_from_str(s: Seq<char>) -> ChunkStatus {
        if s == "Health"@ {
            ChunkStatus::Health
        } else if s == "WaitToArchive"@ {
            ChunkStatus::WaitToArchive
        } else {
            ChunkStatus::Health
        }
    }

    /// Returns the text stored in the database for this status.
    pub fn as_str(&self) -> (r: &'static str)
        ensures
            r@ == self.spec_as_str(),
    {
        match self {
            ChunkStatus::Health => "Health",
            ChunkStatus::WaitToArchive => "WaitToArchive",
        }
    }

    /// Reads a stored status; text that names no status reads as `Health`.
    pub fn from_str(s: &str) -> (r: Self)
        ensures
            r == ChunkStatus::spec_from_str(s@),
    {
        if str_eq(s, "Health") {
            ChunkStatus::Health
        } else if str_eq(s, "WaitToArchive") {
            ChunkStatus::WaitToArchive
        } else {
            ChunkStatus::Health
        }
    }
}

/// Reading back the stored text of a status gives the same status.
pub proof fn lemma_chunk_status_round_trip(st: ChunkStatus)
    ensures
        ChunkStatus::spec_from_str(st.spec_as_str()) == st,
{
    reveal_strlit("Health");
    assert("Health"@.len() == 6);
    reveal_strlit("WaitToArchive");
    assert("WaitToArchive"@.len() == 13);
}
/// Status of a link between a file and one of its chunks.
#[derive(Debug, Clone, Copy, PartialEq, Eq, Structural)]
pub enum MapFileChunkStatus {
    Health,
    WaitToArchive,
}

impl MapFileChunkStatus {
    /// The text stored in the database for this status.
    pub open spec fn spec_as_str(self) -> Seq<char> {
        match self {
            MapFileChunkStatus::Health => "Health"@,
            MapFileChunkStatus::WaitToArchive => "WaitToArchive"@,
        }
    }

    /// The status stored as `s`; text that names no status reads as `Health`.
    pub open spec fn spec_from_str(s: Seq<char>) -> MapFileChunkStatus {
        if s == "Health"@ {
            MapFileChunkStatus::Health
        } else if s == "WaitToArchive"@ {
            MapFileChunkStatus::WaitToArchive
        } else {
            MapFileChunkStatus::Health
        }
    }

    /// Returns the text stored in the database for this status.
    pub fn as_str(&self) -> (r: &'static str)
        ensures
            r@ == self.spec_as_str(),
    {
        match self {
            MapFileChunkStatus::Health => "Health",
            MapFileChunkStatus::WaitToArchive => "WaitToArchive",
        }
    }

    /// Reads a stored status; text that names no status reads as `Health`.
    pub fn from_str(s: &str) -> (r: Self)
        ensures
            r == MapFileChunkStatus::spec_from_str(s@),
    {
        if str_eq(s, "Health") {
            MapFileChunkStatus::Health
        } else if str_eq(s, "WaitToArchive") {
            MapFileChunkStatus::WaitToArchive
        } else {
            MapFileChunkStatus::Health
        }
    }
}

/// Reading back the stored text of a status gives the same status.
pub proof fn lemma_map_file_chunk_status_round_trip(st: MapFileChunkStatus)
    ensures
        MapFileChunkStatus::spec_from_str(st.spec_as_str()) == st,
{
    reveal_strlit("Health");
    assert("Health"@.len() == 6);
    reveal_strlit("WaitToArchive");
    assert("WaitToArchive"@.len() == 13);
}
} // verus!
