use one_archive::mod_database::schema_recovery::{CreateRecoveryGroupParams, RecoveryGroup};
use one_archive::mod_database::constants::{
    ArchiveStatus, ChunkStatus, DirectoryStatus, FileStatus, MapFileChunkStatus, RootStatus,
};
use one_archive::mod_database::schema::{
    ArchiveChunk, ArchiveMetadata, InfoDirectory, InfoFile, InfoRoot, MapFileChunk,
};

#[test]
fn new_records_are_unsaved() {
    let r = InfoRoot::new("/p".into(), "p".into(), RootStatus::WaitToScan);
    assert_eq!((r.id, r.root_path.as_str(), r.root_name.as_str()), (None, "/p", "p"));
    assert_eq!(r.status, RootStatus::WaitToScan);
    assert_eq!((r.created_at, r.updated_at), (None, None));

    let d = InfoDirectory::new(1, "d".into(), 5, None, DirectoryStatus::InScanning);
    assert_eq!((d.id, d.root_id, d.directory_mtime), (None, 1, 5));
    assert_eq!(d.directory_path, None);
    assert_eq!(d.status, DirectoryStatus::InScanning);

    let f = InfoFile::new(2, "f".into(), 10, 6, Some("h".into()), FileStatus::InArchiving);
    assert_eq!((f.id, f.directory_id, f.file_size, f.file_mtime), (None, 2, 10, 6));
    assert_eq!(f.file_hash.as_deref(), Some("h"));
    assert_eq!(f.status, FileStatus::InArchiving);

    let c = ArchiveChunk::new(3, "n".into(), 4, "h".into(), 7, "rel".into(), ChunkStatus::Health);
    assert_eq!((c.id, c.archive_id, c.chunk_size, c.chunk_mtime), (None, 3, 4, 7));
    assert_eq!(c.chunk_relative_path, "rel");

    let m = MapFileChunk::new(8, 9, 2, MapFileChunkStatus::WaitToArchive);
    assert_eq!((m.id, m.file_id, m.chunk_id, m.volume_order), (None, 8, 9, 2));
    assert_eq!(m.status, MapFileChunkStatus::WaitToArchive);
}

#[test]
fn new_volume_record_is_stamped() {
    let a = ArchiveMetadata::new("/out/v_1.tar".into(), "v_1.tar".into(), 4096, 0, 0, ArchiveStatus::InArchiving)
        .expect("the clock reads after 1970");
    assert_eq!(a.id, None);
    assert_eq!(a.archive_uri, "/out/v_1.tar");
    assert_eq!(a.archive_name, "v_1.tar");
    assert_eq!(a.archive_limit_size, 4096);
    assert_eq!((a.archive_hash, a.archive_size), (None, None));
    assert_eq!(a.status, ArchiveStatus::InArchiving);
    assert!(a.created_at > 1_600_000_000);
    assert!(a.updated_at >= a.created_at);
}

#[test]
fn new_recovery_group_takes_its_parameters() {
    let g = RecoveryGroup::new(CreateRecoveryGroupParams {
        group_id: "g-1".into(),
        num_data_shards: 4,
        num_parity_shards: 2,
        shard_size: 1024,
        data_shards_stored: true,
        status: "HEALTH".into(),
        last_verified: Some(5),
    })
    .expect("the clock reads after 1970");
    assert_eq!(g.id, None);
    assert_eq!(g.group_id, "g-1");
    assert_eq!((g.num_data_shards, g.num_parity_shards, g.shard_size), (4, 2, 1024));
    assert!(g.data_shards_stored);
    assert_eq!(g.last_verified, Some(5));
    assert_eq!(g.status, "HEALTH");
    assert!(g.created_at > 1_600_000_000);
}
