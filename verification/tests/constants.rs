use one_archive::database::constants as first;
use one_archive::mod_database::constants::{
    ArchiveStatus, ChunkStatus, DatabaseTableName, DirectoryStatus, FileStatus, MapFileChunkStatus,
    RootStatus,
};

#[test]
fn table_names_round_trip() {
    let all = [
        (DatabaseTableName::InfoRoot, "info_root"),
        (DatabaseTableName::InfoDirectory, "info_directory"),
        (DatabaseTableName::InfoFile, "info_file"),
        (DatabaseTableName::ArchiveMetadata, "archive_metadata"),
        (DatabaseTableName::ArchiveChunk, "archive_chunk"),
        (DatabaseTableName::MapFileChunk, "map_file_chunk"),
        (DatabaseTableName::DirectoryTree, "directory_tree"),
        (DatabaseTableName::ViewFile, "view_file"),
        (DatabaseTableName::ViewChunk, "view_chunk"),
    ];
    for (t, name) in all {
        assert_eq!(t.as_str(), name);
        assert_eq!(DatabaseTableName::from_str(name), Some(t));
    }
    assert_eq!(DatabaseTableName::from_str("info_roots"), None);
    assert_eq!(DatabaseTableName::from_str(""), None);
}

#[test]
fn root_status_texts() {
    let all = [
        (RootStatus::Health, "Health"),
        (RootStatus::WaitToScan, "WAIT_TO_SCAN"),
        (RootStatus::WaitToArchive, "WaitToArchive"),
        (RootStatus::InScanning, "IN_SCANNING"),
        (RootStatus::InArchiving, "IN_ARCHIVING"),
        (RootStatus::ErrorScanningFailed, "ERROR_SCANNING_FAILED"),
        (RootStatus::ErrorArchivingFailed, "ERROR_ARCHIVING_FAILED"),
        (RootStatus::WaitToDelete, "WAIT_TO_DELETE"),
    ];
    for (st, text) in all {
        assert_eq!(st.as_str(), text);
        assert_eq!(RootStatus::from_str(text), st);
    }
    assert_eq!(RootStatus::from_str("unknown"), RootStatus::Health);
}

#[test]
fn file_and_directory_status_texts() {
    let files = [
        (FileStatus::Health, "Health"),
        (FileStatus::WaitToArchive, "WaitToArchive"),
        (FileStatus::WaitToDelete, "WAIT_TO_DELETE"),
        (FileStatus::InScanning, "IN_SCANNING"),
        (FileStatus::InArchiving, "IN_ARCHIVING"),
        (FileStatus::ErrorScanningFailed, "ERROR_SCANNING_FAILED"),
        (FileStatus::ErrorArchivingFailed, "ERROR_ARCHIVING_FAILED"),
    ];
    for (st, text) in files {
        assert_eq!(st.as_str(), text);
        assert_eq!(FileStatus::from_str(text), st);
    }
    assert_eq!(FileStatus::from_str("WAIT_TO_ARCHIVE"), FileStatus::Health);
    let dirs = [
        (DirectoryStatus::Health, "Health"),
        (DirectoryStatus::WaitToArchive, "WaitToArchive"),
        (DirectoryStatus::WaitToDelete, "WAIT_TO_DELETE"),
        (DirectoryStatus::InScanning, "IN_SCANNING"),
        (DirectoryStatus::InArchiving, "IN_ARCHIVING"),
        (DirectoryStatus::ErrorScanningFailed, "ERROR_SCANNING_FAILED"),
        (DirectoryStatus::ErrorArchivingFailed, "ERROR_ARCHIVING_FAILED"),
    ];
    for (st, text) in dirs {
        assert_eq!(st.as_str(), text);
        assert_eq!(DirectoryStatus::from_str(text), st);
    }
    assert_eq!(DirectoryStatus::from_str(""), DirectoryStatus::Health);
}

#[test]
fn archive_chunk_and_link_status_texts() {
    assert_eq!(ArchiveStatus::Health.as_str(), "Health");
    assert_eq!(ArchiveStatus::InArchiving.as_str(), "InArchiving");
    assert_eq!(ArchiveStatus::from_str("InArchiving"), ArchiveStatus::InArchiving);
    assert_eq!(ArchiveStatus::from_str("IN_ARCHIVING"), ArchiveStatus::Health);
    assert_eq!(ChunkStatus::WaitToArchive.as_str(), "WaitToArchive");
    assert_eq!(ChunkStatus::from_str("WaitToArchive"), ChunkStatus::WaitToArchive);
    assert_eq!(ChunkStatus::from_str("Health"), ChunkStatus::Health);
    assert_eq!(ChunkStatus::from_str("x"), ChunkStatus::Health);
    assert_eq!(MapFileChunkStatus::Health.as_str(), "Health");
    assert_eq!(MapFileChunkStatus::from_str("WaitToArchive"), MapFileChunkStatus::WaitToArchive);
    assert_eq!(MapFileChunkStatus::from_str("wait"), MapFileChunkStatus::Health);
}

#[test]
fn first_layout_texts() {
    assert_eq!(first::DatabaseTableName::ArchiveAsset.as_str(), "archive_asset");
    assert_eq!(first::DatabaseTableName::from_str("view_asset"), Some(first::DatabaseTableName::ViewAsset));
    assert_eq!(first::DatabaseTableName::from_str("view_chunk"), None);
    assert_eq!(first::RootStatus::UPDATING.as_str(), "UPDATING");
    assert_eq!(first::RootStatus::from_str("UNARCHIVED"), first::RootStatus::UNARCHIVED);
    assert_eq!(first::RootStatus::from_str("Health"), first::RootStatus::HEALTH);
    assert_eq!(first::FileStatus::WAIT_TO_DELETE.as_str(), "WAIT_TO_DELETE");
    assert_eq!(first::FileStatus::from_str("UNARCHIVED"), first::FileStatus::UNARCHIVED);
    assert_eq!(first::DirectoryStatus::from_str("WAIT_TO_DELETE"), first::DirectoryStatus::WAIT_TO_DELETE);
    assert_eq!(first::ArchiveStatus::UNCOMPLETED.as_str(), "UNCOMPLETED");
    assert_eq!(first::ArchiveStatus::from_str("other"), first::ArchiveStatus::HEALTH);
    assert_eq!(first::AssetStatus::from_str("UNARCHIVED"), first::AssetStatus::UNARCHIVED);
    assert_eq!(first::FileVolumeAssetStatus::UNARCHIVED.as_str(), "UNARCHIVED");
    assert_eq!(first::MapFileAssetStatus::from_str("HEALTH"), first::MapFileAssetStatus::HEALTH);
}
