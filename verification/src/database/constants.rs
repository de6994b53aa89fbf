//! Table names and status codes of the first index layout (assets in place of chunks).
use vstd::prelude::*;
use crate::text::str_eq;

verus! {

/// Tables and views of the first index layout.
#[derive(Debug, Clone, Copy, PartialEq, Eq, Structural)]
pub enum DatabaseTableName {
    InfoRoot,
    InfoDirectory,
    InfoFile,
    ArchiveMetadata,
    ArchiveAsset,
    MapFileAsset,
    DirectoryTree,
    ViewFile,
    ViewAsset,
}

impl DatabaseTableName {
    /// The table name as written in SQL.
    pub open spec fn spec_as_str(self) -> Seq<char> {
        match self {
            DatabaseTableName::InfoRoot => "info_root"@,
            DatabaseTableName::InfoDirectory => "info_directory"@,
            DatabaseTableName::InfoFile => "info_file"@,
            DatabaseTableName::ArchiveMetadata => "archive_metadata"@,
            DatabaseTableName::ArchiveAsset => "archive_asset"@,
            DatabaseTableName::MapFileAsset => "map_file_asset"@,
            DatabaseTableName::DirectoryTree => "directory_tree"@,
            DatabaseTableName::ViewFile => "view_file"@,
            DatabaseTableName::ViewAsset => "view_asset"@,
        }
    }

    /// The table that `s` names, if any.
    pub open spec fn spec_from_str(s: Seq<char>) -> Option<DatabaseTableName> {
        if s == "info_root"@ {
            Some(DatabaseTableName::InfoRoot)
        } else if s == "info_directory"@ {
            Some(DatabaseTableName::InfoDirectory)
        } else if s == "info_file"@ {
            Some(DatabaseTableName::InfoFile)
        } else if s == "archive_metadata"@ {
            Some(DatabaseTableName::ArchiveMetadata)
        } else if s == "archive_asset"@ {
            Some(DatabaseTableName::ArchiveAsset)
        } else if s == "map_file_asset"@ {
            Some(DatabaseTableName::MapFileAsset)
        } else if s == "directory_tree"@ {
            Some(DatabaseTableName::DirectoryTree)
        } else if s == "view_file"@ {
            Some(DatabaseTableName::ViewFile)
        } else if s == "view_asset"@ {
            Some(DatabaseTableName::ViewAsset)
        } else {
            None
        }
    }

    /// Returns the table name.
    pub fn as_str(&self) -> (r: &'static str)
        ensures
            r@ == self.spec_as_str(),
    {
        match self {
            DatabaseTableName::InfoRoot => "info_root",
            DatabaseTableName::InfoDirectory => "info_directory",
            DatabaseTableName::InfoFile => "info_file",
            DatabaseTableName::ArchiveMetadata => "archive_metadata",
            DatabaseTableName::ArchiveAsset => "archive_asset",
            DatabaseTableName::MapFileAsset => "map_file_asset",
            DatabaseTableName::DirectoryTree => "directory_tree",
            DatabaseTableName::ViewFile => "view_file",
            DatabaseTableName::ViewAsset => "view_asset",
        }
    }

    /// Looks a table up by its name; an unknown name gives `None`.
    pub fn from_str(s: &str) -> (r: Option<Self>)
        ensures
            r == DatabaseTableName::spec_from_str(s@),
    {
        if str_eq(s, "info_root") {
            Some(DatabaseTableName::InfoRoot)
        } else if str_eq(s, "info_directory") {
            Some(DatabaseTableName::InfoDirectory)
        } else if str_eq(s, "info_file") {
            Some(DatabaseTableName::InfoFile)
        } else if str_eq(s, "archive_metadata") {
            Some(DatabaseTableName::ArchiveMetadata)
        } else if str_eq(s, "archive_asset") {
            Some(DatabaseTableName::ArchiveAsset)
        } else if str_eq(s, "map_file_asset") {
            Some(DatabaseTableName::MapFileAsset)
        } else if str_eq(s, "directory_tree") {
            Some(DatabaseTableName::DirectoryTree)
        } else if str_eq(s, "view_file") {
            Some(DatabaseTableName::ViewFile)
        } else if str_eq(s, "view_asset") {
            Some(DatabaseTableName::ViewAsset)
        } else {
            None
        }
    }
}

/// Looking up the name of a table gives that table back, and a name that
/// is found is the name of the table it finds.
pub proof fn lemma_database_table_name_round_trip(t: DatabaseTableName, s: Seq<char>)
    ensures
        DatabaseTableName::spec_from_str(t.spec_as_str()) == Some(t),
        DatabaseTableName::spec_from_str(s) matches Some(u) ==> u.spec_as_str() == s,
{
    reveal_strlit("info_root");
    assert("info_root"@.len() == 9);
    reveal_strlit("info_directory");
    assert("info_directory"@.len() == 14);
    reveal_strlit("info_file");
    assert("info_file"@.len() == 9);
    reveal_strlit("archive_metadata");
    assert("archive_metadata"@.len() == 16);
    reveal_strlit("archive_asset");
    assert("archive_asset"@.len() == 13);
    reveal_strlit("map_file_asset");
    assert("map_file_asset"@.len() == 14);
    reveal_strlit("directory_tree");
    assert("directory_tree"@.len() == 14);
    reveal_strlit("view_file");
    assert("view_file"@.len() == 9);
    reveal_strlit("view_asset");
    assert("view_asset"@.len() == 10);
    assert("info_root"@[5] != "info_file"@[5]);
    assert("info_root"@[0] != "view_file"@[0]);
    assert("info_directory"@[0] != "map_file_asset"@[0]);
    assert("info_directory"@[0] != "directory_tree"@[0]);
    assert("info_file"@[0] != "view_file"@[0]);
    assert("map_file_asset"@[0] != "directory_tree"@[0]);
}
/// Status of a scanned root directory.
#[derive(Debug, Clone, Copy, PartialEq, Eq, Structural)]
pub enum RootStatus {
    HEALTH,
    UPDATING,
    UNARCHIVED,
}

impl RootStatus {
    /// The text stored in the database for this status.
    pub open spec fn spec_as_str(self) -> Seq<char> {
        match self {
            RootStatus::HEALTH => "HEALTH"@,
            RootStatus::UPDATING => "UPDATING"@,
            RootStatus::UNARCHIVED => "UNARCHIVED"@,
        }
    }

    /// The status stored as `s`; text that names no status reads as `HEALTH`.
    pub open spec fn spec_from_str(s: Seq<char>) -> RootStatus {
        if s == "HEALTH"@ {
            RootStatus::HEALTH
        } else if s == "UPDATING"@ {
            RootStatus::UPDATING
        } else if s == "UNARCHIVED"@ {
            RootStatus::UNARCHIVED
        } else {
            RootStatus::HEALTH
        }
    }

    /// Returns the text stored in the database for this status.
    pub fn as_str(&self) -> (r: &'static str)
        ensures
            r@ == self.spec_as_str(),
    {
        match self {
            RootStatus::HEALTH => "HEALTH",
            RootStatus::UPDATING => "UPDATING",
            RootStatus::UNARCHIVED => "UNARCHIVED",
        }
    }

    /// Reads a stored status; text that names no status reads as `HEALTH`.
    pub fn from_str(s: &str) -> (r: Self)
        ensures
            r == RootStatus::spec_from_str(s@),
    {
        if str_eq(s, "HEALTH") {
            RootStatus::HEALTH
        } else if str_eq(s, "UPDATING") {
            RootStatus::UPDATING
        } else if str_eq(s, "UNARCHIVED") {
            RootStatus::UNARCHIVED
        } else {
            RootStatus::HEALTH
        }
    }
}

/// Reading back the stored text of a status gives the same status.
pub proof fn lemma_root_status_round_trip(st: RootStatus)
    ensures
        RootStatus::spec_from_str(st.spec_as_str()) == st,
{
    reveal_strlit("HEALTH");
    assert("HEALTH"@.len() == 6);
    reveal_strlit("UPDATING");
    assert("UPDATING"@.len() == 8);
    reveal_strlit("UNARCHIVED");
    assert("UNARCHIVED"@.len() == 10);
}
/// Status of an indexed file.
#[allow(non_camel_case_types)]
#[derive(Debug, Clone, Copy, PartialEq, Eq, Structural)]
pub enum FileStatus {
    HEALTH,
    UNARCHIVED,
    WAIT_TO_DELETE,
}

impl FileStatus {
    /// The text stored in the database for this status.
    pub open spec fn spec_as_str(self) -> Seq<char> {
        match self {
            FileStatus::HEALTH => "HEALTH"@,
            FileStatus::UNARCHIVED => "UNARCHIVED"@,
            FileStatus::WAIT_TO_DELETE => "WAIT_TO_DELETE"@,
        }
    }

    /// The status stored as `s`; text that names no status reads as `HEALTH`.
    pub open spec fn spec_from_str(s: Seq<char>) -> FileStatus {
        if s == "HEALTH"@ {
            FileStatus::HEALTH
        } else if s == "UNARCHIVED"@ {
            FileStatus::UNARCHIVED
        } else if s == "WAIT_TO_DELETE"@ {
            FileStatus::WAIT_TO_DELETE
        } else {
            FileStatus::HEALTH
        }
    }

    /// Returns the text stored in the database for this status.
    pub fn as_str(&self) -> (r: &'static str)
        ensures
            r@ == self.spec_as_str(),
    {
        match self {
            FileStatus::HEALTH => "HEALTH",
            FileStatus::UNARCHIVED => "UNARCHIVED",
            FileStatus::WAIT_TO_DELETE => "WAIT_TO_DELETE",
        }
    }

    /// Reads a stored status; text that names no status reads as `HEALTH`.
    pub fn from_str(s: &str) -> (r: Self)
        ensures
            r == FileStatus::spec_from_str(s@),
    {
        if str_eq(s, "HEALTH") {
            FileStatus::HEALTH
        } else if str_eq(s, "UNARCHIVED") {
            FileStatus::UNARCHIVED
        } else if str_eq(s, "WAIT_TO_DELETE") {
            FileStatus::WAIT_TO_DELETE
        } else {
            FileStatus::HEALTH
        }
    }
}

/// Reading back the stored text of a status gives the same status.
pub proof fn lemma_file_status_round_trip(st: FileStatus)
    ensures
        FileStatus::spec_from_str(st.spec_as_str()) == st,
{
    reveal_strlit("HEALTH");
    assert("HEALTH"@.len() == 6);
    reveal_strlit("UNARCHIVED");
    assert("UNARCHIVED"@.len() == 10);
    reveal_strlit("WAIT_TO_DELETE");
    assert("WAIT_TO_DELETE"@.len() == 14);
}
/// Status of an indexed directory.
#[allow(non_camel_case_types)]
#[derive(Debug, Clone, Copy, PartialEq, Eq, Structural)]
pub enum DirectoryStatus {
    HEALTH,
    UNARCHIVED,
    WAIT_TO_DELETE,
}

impl DirectoryStatus {
    /// The text stored in the database for this status.
    pub open spec fn spec_as_str(self) -> Seq<char> {
        match self {
            DirectoryStatus::HEALTH => "HEALTH"@,
            DirectoryStatus::UNARCHIVED => "UNARCHIVED"@,
            DirectoryStatus::WAIT_TO_DELETE => "WAIT_TO_DELETE"@,
        }
    }

    /// The status stored as `s`; text that names no status reads as `HEALTH`.
    pub open spec fn spec_from_str(s: Seq<char>) -> DirectoryStatus {
        if s == "HEALTH"@ {
            DirectoryStatus::HEALTH
        } else if s == "UNARCHIVED"@ {
            DirectoryStatus::UNARCHIVED
        } else if s == "WAIT_TO_DELETE"@ {
            DirectoryStatus::WAIT_TO_DELETE
        } else {
            DirectoryStatus::HEALTH
        }
    }

    /// Returns the text stored in the database for this status.
    pub fn as_str(&self) -> (r: &'static str)
        ensures
            r@ == self.spec_as_str(),
    {
        match self {
            DirectoryStatus::HEALTH => "HEALTH",
            DirectoryStatus::UNARCHIVED => "UNARCHIVED",
            DirectoryStatus::WAIT_TO_DELETE => "WAIT_TO_DELETE",
        }
    }

    /// Reads a stored status; text that names no status reads as `HEALTH`.
    pub fn from_str(s: &str) -> (r: Self)
        ensures
            r == DirectoryStatus::spec_from_str(s@),
    {
        if str_eq(s, "HEALTH") {
            DirectoryStatus::HEALTH
        } else if str_eq(s, "UNARCHIVED") {
            DirectoryStatus::UNARCHIVED
        } else if str_eq(s, "WAIT_TO_DELETE") {
            DirectoryStatus::WAIT_TO_DELETE
        } else {
            DirectoryStatus::HEALTH
        }
    }
}

/// Reading back the stored text of a status gives the same status.
pub proof fn lemma_directory_status_round_trip(st: DirectoryStatus)
    ensures
        DirectoryStatus::spec_from_str(st.spec_as_str()) == st,
{
    reveal_strlit("HEALTH");
    assert("HEALTH"@.len() == 6);
    reveal_strlit("UNARCHIVED");
    assert("UNARCHIVED"@.len() == 10);
    reveal_strlit("WAIT_TO_DELETE");
    assert("WAIT_TO_DELETE"@.len() == 14);
}
/// Status of an archive volume.
#[derive(Debug, Clone, Copy, PartialEq, Eq, Structural)]
pub enum ArchiveStatus {
    HEALTH,
    UNCOMPLETED,
}

impl ArchiveStatus {
    /// The text stored in the database for this status.
    pub open spec fn spec_as_str(self) -> Seq<char> {
        match self {
            ArchiveStatus::HEALTH => "HEALTH"@,
            ArchiveStatus::UNCOMPLETED => "UNCOMPLETED"@,
        }
    }

    /// The status stored as `s`; text that names no status reads as `HEALTH`.
    pub open spec fn spec_from_str(s: Seq<char>) -> ArchiveStatus {
        if s == "HEALTH"@ {
            ArchiveStatus::HEALTH
        } else if s == "UNCOMPLETED"@ {
            ArchiveStatus::UNCOMPLETED
        } else {
            ArchiveStatus::HEALTH
        }
    }

    /// Returns the text stored in the database for this status.
    pub fn as_str(&self) -> (r: &'static str)
        ensures
            r@ == self.spec_as_str(),
    {
        match self {
            ArchiveStatus::HEALTH => "HEALTH",
            ArchiveStatus::UNCOMPLETED => "UNCOMPLETED",
        }
    }

    /// Reads a stored status; text that names no status reads as `HEALTH`.
    pub fn from_str(s: &str) -> (r: Self)
        ensures
            r == ArchiveStatus::spec_from_str(s@),
    {
        if str_eq(s, "HEALTH") {
            ArchiveStatus::HEALTH
        } else if str_eq(s, "UNCOMPLETED") {
            ArchiveStatus::UNCOMPLETED
        } else {
            ArchiveStatus::HEALTH
        }
    }
}

/// Reading back the stored text of a status gives the same status.
pub proof fn lemma_archive_status_round_trip(st: ArchiveStatus)
    ensures
        ArchiveStatus::spec_from_str(st.spec_as_str()) == st,
{
    reveal_strlit("HEALTH");
    assert("HEALTH"@.len() == 6);
    reveal_strlit("UNCOMPLETED");
    assert("UNCOMPLETED"@.len() == 11);
}
/// Status of a stored asset.
#[derive(Debug, Clone, Copy, PartialEq, Eq, Structural)]
pub enum AssetStatus {
    HEALTH,
    UNARCHIVED,
}

impl AssetStatus {
    /// The text stored in the database for this status.
    pub open spec fn spec_as_str(self) -> Seq<char> {
        match self {
            AssetStatus::HEALTH => "HEALTH"@,
            AssetStatus::UNARCHIVED => "UNARCHIVED"@,
        }
    }

    /// The status stored as `s`; text that names no status reads as `HEALTH`.
    pub open spec fn spec_from_str(s: Seq<char>) -> AssetStatus {
        if s == "HEALTH"@ {
            AssetStatus::HEALTH
        } else if s == "UNARCHIVED"@ {
            AssetStatus::UNARCHIVED
        } else {
            AssetStatus::HEALTH
        }
    }

    /// Returns the text stored in the database for this status.
    pub fn as_str(&self) -> (r: &'static str)
        ensures
            r@ == self.spec_as_str(),
    {
        match self {
            AssetStatus::HEALTH => "HEALTH",
            AssetStatus::UNARCHIVED => "UNARCHIVED",
        }
    }

    /// Reads a stored status; text that names no status reads as `HEALTH`.
    pub fn from_str(s: &str) -> (r: Self)
        ensures
            r == AssetStatus::spec_from_str(s@),
    {
        if str_eq(s, "HEALTH") {
            AssetStatus::HEALTH
        } else if str_eq(s, "UNARCHIVED") {
            AssetStatus::UNARCHIVED
        } else {
            AssetStatus::HEALTH
        }
    }
}

/// Reading back the stored text of a status gives the same status.
pub proof fn lemma_asset_status_round_trip(st: AssetStatus)
    ensures
        AssetStatus::spec_from_str(st.spec_as_str()) == st,
{
    reveal_strlit("HEALTH");
    assert("HEALTH"@.len() == 6);
    reveal_strlit("UNARCHIVED");
    assert("UNARCHIVED"@.len() == 10);
}
/// Status of a file volume asset.
#[derive(Debug, Clone, Copy, PartialEq, Eq, Structural)]
pub enum FileVolumeAssetStatus {
    HEALTH,
    UNARCHIVED,
}

impl FileVolumeAssetStatus {
    /// The text stored in the database for this status.
    pub open spec fn spec_as_str(self) -> Seq<char> {
        match self {
            FileVolumeAssetStatus::HEALTH => "HEALTH"@,
            FileVolumeAssetStatus::UNARCHIVED => "UNARCHIVED"@,
        }
    }

    /// The status stored as `s`; text that names no status reads as `HEALTH`.
    pub open spec fn spec_from_str(s: Seq<char>) -> FileVolumeAssetStatus {
        if s == "HEALTH"@ {
            FileVolumeAssetStatus::HEALTH
        } else if s == "UNARCHIVED"@ {
            FileVolumeAssetStatus::UNARCHIVED
        } else {
            FileVolumeAssetStatus::HEALTH
        }
    }

    /// Returns the text stored in the database for this status.
    pub fn as_str(&self) -> (r: &'static str)
        ensures
            r@ == self.spec_as_str(),
    {
        match self {
            FileVolumeAssetStatus::HEALTH => "HEALTH",
            FileVolumeAssetStatus::UNARCHIVED => "UNARCHIVED",
        }
    }

    /// Reads a stored status; text that names no status reads as `HEALTH`.
    pub fn from_str(s: &str) -> (r: Self)
        ensures
            r == FileVolumeAssetStatus::spec_from_str(s@),
    {
        if str_eq(s, "HEALTH") {
            FileVolumeAssetStatus::HEALTH
        } else if str_eq(s, "UNARCHIVED") {
            FileVolumeAssetStatus::UNARCHIVED
        } else {
            FileVolumeAssetStatus::HEALTH
        }
    }
}

/// Reading back the stored text of a status gives the same status.
pub proof fn lemma_file_volume_asset_status_round_trip(st: FileVolumeAssetStatus)
    ensures
        FileVolumeAssetStatus::spec_from_str(st.spec_as_str()) == st,
{
    reveal_strlit("HEALTH");
    assert("HEALTH"@.len() == 6);
    reveal_strlit("UNARCHIVED");
    assert("UNARCHIVED"@.len() == 10);
}
/// Status of a link between a file and one of its assets.
#[derive(Debug, Clone, Copy, PartialEq, Eq, Structural)]
pub enum MapFileAssetStatus {
    HEALTH,
    UNARCHIVED,
}

impl MapFileAssetStatus {
    /// The text stored in the database for this status.
    pub open spec fn spec_as_str(self) -> Seq<char> {
        match self {
            MapFileAssetStatus::HEALTH => "HEALTH"@,
            MapFileAssetStatus::UNARCHIVED => "UNARCHIVED"@,
        }
    }

    /// The status stored as `s`; text that names no status reads as `HEALTH`.
    pub open spec fn spec_from_str(s: Seq<char>) -> MapFileAssetStatus {
        if s == "HEALTH"@ {
            MapFileAssetStatus::HEALTH
        } else if s == "UNARCHIVED"@ {
            MapFileAssetStatus::UNARCHIVED
        } else {
            MapFileAssetStatus::HEALTH
        }
    }

    /// Returns the text stored in the database for this status.
    pub fn as_str(&self) -> (r: &'static str)
        ensures
            r@ == self.spec_as_str(),
    {
        match self {
            MapFileAssetStatus::HEALTH => "HEALTH",
            MapFileAssetStatus::UNARCHIVED => "UNARCHIVED",
        }
    }

    /// Reads a stored status; text that names no status reads as `HEALTH`.
    pub fn from_str(s: &str) -> (r: Self)
        ensures
            r == MapFileAssetStatus::spec_from_str(s@),
    {
        if str_eq(s, "HEALTH") {
            MapFileAssetStatus::HEALTH
        } else if str_eq(s, "UNARCHIVED") {
            MapFileAssetStatus::UNARCHIVED
        } else {
            MapFileAssetStatus::HEALTH
        }
    }
}

/// Reading back the stored text of a status gives the same status.
pub proof fn lemma_map_file_asset_status_round_trip(st: MapFileAssetStatus)
    ensures
        MapFileAssetStatus::spec_from_str(st.spec_as_str()) == st,
{
    reveal_strlit("HEALTH");
    assert("HEALTH"@.len() == 6);
    reveal_strlit("UNARCHIVED");
    assert("UNARCHIVED"@.len() == 10);
}
} // verus!
