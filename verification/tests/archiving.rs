use one_archive::mod_archive::impl_archive::{
    ArchiveError, ArchiveServices, ChunkPlan, FileChunk, FileContentPlan, FileProcessingStrategy,
};
use one_archive::mod_archive::impls_archive::archive_in_impl::ArchiveInServices;
use one_archive::mod_archive::trait_archive::{ArchiveContext, TAR_HEADER_SIZE};
use one_archive::mod_archive::utils_archive::{update_archive_progress, ArchiveProgress};
use one_archive::mod_database::constants::{
    ChunkStatus, DirectoryStatus, FileStatus, MapFileChunkStatus,
};
use one_archive::mod_database::schema::{ArchiveChunk, InfoDirectory, InfoFile, MapFileChunk, ViewFile};
use one_archive::utils::EventType;

fn view_file(file_id: i64, size: i64) -> ViewFile {
    ViewFile {
        root_id: Some(1),
        root_path: "/data".to_string(),
        root_status: "WaitToArchive".to_string(),
        directory_id: 2,
        directory_path: Some("docs".to_string()),
        directory_mtime: 0,
        directory_status: "WaitToArchive".to_string(),
        file_id,
        file_name: format!("f{}", file_id),
        file_size: size,
        file_mtime: 99,
        file_hash: None,
        file_status: "WaitToArchive".to_string(),
    }
}

fn ranges(chunks: &[FileChunk]) -> Vec<(i64, i64)> {
    chunks.iter().map(|c| (c.offset, c.size)).collect()
}

#[test]
fn chunk_plan_splits_at_the_volume_limit() {
    assert_eq!(ranges(&FileProcessingStrategy::plan_file_chunks(10, 4)), vec![(0, 4), (4, 4), (8, 2)]);
    assert_eq!(ranges(&FileProcessingStrategy::plan_file_chunks(8, 4)), vec![(0, 4), (4, 4)]);
    assert_eq!(ranges(&FileProcessingStrategy::plan_file_chunks(3, 100)), vec![(0, 3)]);
    assert_eq!(ranges(&FileProcessingStrategy::plan_file_chunks(0, 4)), vec![(0, 0)]);
    assert_eq!(ranges(&FileProcessingStrategy::plan_file_chunks(0, 0)), vec![(0, 0)]);
    assert!(FileProcessingStrategy::plan_file_chunks(-5, 4).is_empty());
}

#[test]
fn chunk_plan_covers_the_file() {
    for (size, limit) in [(1i64, 1i64), (7, 3), (1000, 64), (65, 64), (64, 64)] {
        let chunks = FileProcessingStrategy::plan_file_chunks(size, limit);
        let mut next = 0;
        for (i, c) in chunks.iter().enumerate() {
            assert_eq!(c.offset, next);
            assert!(c.size > 0 && c.size <= limit);
            if i + 1 < chunks.len() {
                assert_eq!(c.size, limit);
            }
            next += c.size;
        }
        assert_eq!(next, size);
    }
}

#[test]
fn stored_chunk_is_reused() {
    let stored = ArchiveChunk::new(3, "h".into(), 4, "h".into(), 1, "h".into(), ChunkStatus::Health);
    let stored = ArchiveChunk { id: Some(41), ..stored };
    match FileProcessingStrategy::plan_chunk(Some(stored), None, "h".into(), 4, 5) {
        ChunkPlan::Reuse(id) => assert_eq!(id, 41),
        ChunkPlan::Create(_) => panic!("a stored chunk must be reused"),
    }
}

#[test]
fn new_chunk_is_named_by_its_hash() {
    match FileProcessingStrategy::plan_chunk(None, Some(9), "abc".into(), 17, 123) {
        ChunkPlan::Create(c) => {
            assert_eq!(c.id, None);
            assert_eq!(c.archive_id, 9);
            assert_eq!(c.chunk_name, "abc");
            assert_eq!(c.chunk_hash, "abc");
            assert_eq!(c.chunk_relative_path, "abc");
            assert_eq!(c.chunk_size, 17);
            assert_eq!(c.chunk_mtime, 123);
            assert_eq!(c.status, ChunkStatus::WaitToArchive);
            let written = FileProcessingStrategy::chunk_written(c);
            assert_eq!(written.status, ChunkStatus::Health);
            assert_eq!(written.chunk_name, "abc");
        }
        ChunkPlan::Reuse(_) => panic!("nothing stored to reuse"),
    }
}

#[test]
fn same_content_reuses_the_first_file() {
    let files = vec![view_file(5, 1), view_file(6, 1)];
    assert_eq!(FileProcessingStrategy::first_matching_file_id(&files), Ok(5));
    assert_eq!(
        FileProcessingStrategy::first_matching_file_id(&[]),
        Err(ArchiveError::NoMatchingFileId)
    );
    assert_eq!(ArchiveError::NoMatchingFileId.message(), "找不到匹配的文件 ID");
    assert_eq!(FileProcessingStrategy::plan_file_content(&files), FileContentPlan::ReuseFile(5));
    assert_eq!(FileProcessingStrategy::plan_file_content(&[]), FileContentPlan::ArchiveNew);
    let links = vec![
        MapFileChunk::new(5, 30, 1, MapFileChunkStatus::Health),
        MapFileChunk::new(5, 31, 2, MapFileChunkStatus::Health),
    ];
    assert_eq!(FileProcessingStrategy::chunk_ids_of(&links), vec![30, 31]);
}

#[test]
fn links_are_numbered_from_one() {
    let f = view_file(8, 10);
    let links = ArchiveServices::save_map_file_chunk_list(&f, &[11, 12, 11]);
    assert_eq!(links.len(), 3);
    for (i, l) in links.iter().enumerate() {
        assert_eq!(l.file_id, 8);
        assert_eq!(l.volume_order, i as i32 + 1);
        assert_eq!(l.status, MapFileChunkStatus::Health);
        assert_eq!(l.id, None);
    }
    assert_eq!(links[2].chunk_id, 11);
    let old_links = ArchiveInServices::new().save_file_indexes(&f, &[4]);
    assert_eq!(old_links.len(), 1);
    assert_eq!(old_links[0].chunk_id, 4);
    assert_eq!(old_links[0].volume_order, 1);
    assert!(ArchiveServices::save_map_file_chunk_list(&f, &[]).is_empty());
}

#[test]
fn links_read_back_give_the_chunks() {
    let f = view_file(8, 10);
    let ids = [21, 7, 21, 3];
    let links = ArchiveServices::save_map_file_chunk_list(&f, &ids);
    let mut ordered = links.clone();
    ordered.sort_by_key(|l| l.volume_order);
    assert_eq!(FileProcessingStrategy::chunk_ids_of(&ordered), ids.to_vec());
}

#[test]
fn files_to_archive_and_their_total() {
    let services = ArchiveServices;
    let (files, total, count) =
        services.get_files_to_archive(vec![view_file(1, 10), view_file(2, 32)]).unwrap();
    assert_eq!(files.len(), 2);
    assert_eq!(total, 42);
    assert_eq!(count, 2);
    assert_eq!(services.get_files_to_archive(vec![]).unwrap_err(), ArchiveError::NoFilesToArchive);
    assert_eq!(ArchiveError::NoFilesToArchive.message(), "没有找到需要归档的文件");
}

#[test]
fn directory_status_after_archiving() {
    let services = ArchiveServices;
    let dir = InfoDirectory { id: Some(2), ..InfoDirectory::new(1, "d".into(), 0, Some("d".into()), DirectoryStatus::WaitToArchive) };
    let healthy = InfoFile::new(2, "a".into(), 1, 0, None, FileStatus::Health);
    let failed = InfoFile::new(2, "b".into(), 1, 0, None, FileStatus::WaitToArchive);
    let elsewhere = InfoFile::new(3, "c".into(), 1, 0, None, FileStatus::WaitToArchive);
    let r = services.finalize_directory(dir.clone(), &[healthy.clone(), elsewhere.clone()]);
    assert_eq!(r.status, DirectoryStatus::Health);
    assert_eq!(r.id, Some(2));
    let r = services.finalize_directory(dir.clone(), &[healthy, failed]);
    assert_eq!(r.status, DirectoryStatus::ErrorArchivingFailed);
    let r = services.finalize_directory(dir, &[]);
    assert_eq!(r.status, DirectoryStatus::Health);
}

#[test]
fn volume_rollover() {
    let mut ctx = ArchiveContext::new("p".into(), "/out".into(), 2048);
    assert_eq!(ctx.archive_counter, 1);
    assert!(ctx.need_new_archive());
    ctx.start_new_archive(7, "/out/p_1.tar".into());
    assert_eq!(ctx.archive_counter, 2);
    assert_eq!(ctx.current_archive_id, Some(7));
    assert!(!ctx.need_new_archive());
    ctx.current_archive_size = 2048 - TAR_HEADER_SIZE - 1;
    assert!(!ctx.need_new_archive());
    ctx.current_archive_size = 2048 - TAR_HEADER_SIZE;
    assert!(ctx.need_new_archive());
    ctx.reset_current();
    assert_eq!(ctx.current_archive_id, None);
    assert_eq!(ctx.current_archive_size, 0);
    assert_eq!(ctx.archive_counter, 2);
    assert!(ctx.need_new_archive());
    let mut tiny = ArchiveContext::new("p".into(), "/out".into(), TAR_HEADER_SIZE);
    tiny.start_new_archive(1, "x".into());
    assert!(tiny.need_new_archive());
}

#[test]
fn progress_records_and_events() {
    let services = ArchiveServices;
    let mut p = services.initialize_progress(2, 30);
    assert_eq!((p.total_files, p.processed_files, p.processed_bytes, p.total_bytes), (2, 0, 0, 30));
    assert!(!p.completed);
    p.start_file("a.txt".into());
    assert_eq!(p.current_file.as_deref(), Some("a.txt"));
    p.finish_file(10);
    assert_eq!((p.processed_files, p.processed_bytes), (1, 10));
    let ev = update_archive_progress(&p, "msg", EventType::Progress);
    assert_eq!(ev.event_type, EventType::Progress);
    assert_eq!(ev.operation, "archive");
    assert_eq!(ev.message.as_deref(), Some("msg"));
    assert_eq!(ev.data.processed_bytes, 10);
    p.complete();
    assert!(p.completed);
    let snap: ArchiveProgress = p.snapshot();
    assert_eq!(snap.current_file, p.current_file);
    assert!(snap.completed);
}
