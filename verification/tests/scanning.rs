use one_archive::archive::services::{
    find_indexed_directory, find_indexed_file, plan_rescanned_directory, plan_rescanned_file,
    rescanned_directory_row, rescanned_file_row,
    same_opt_text, scan_directory_only, IndexedDirectory, IndexedFile, RescanDirectoryAction,
    RescanFileAction, CHANGED_FILE_STATUS, NEW_DIRECTORY_STATUS, RESCAN_ROOT_STATUS,
};
use one_archive::database::constants as first;
use one_archive::mod_archive::impls_archive::implementation::{
    ArchiveServices, DirectoryRecordAction, FileRecordAction, RootRecordAction, SCANNED_ROOT_STATUS,
};
use one_archive::mod_archive::models::{DirectoryStatistics, EntryKind, WalkEntry};
use one_archive::mod_archive::traits::DirectoryStatisticsOperations;
use one_archive::mod_database::constants::{DirectoryStatus, FileStatus, RootStatus};
use one_archive::mod_database::schema::{InfoDirectory, InfoFile, InfoRoot};

fn entry(depth: u32, kind: EntryKind, size: Option<u64>, is_start: bool) -> WalkEntry {
    WalkEntry { depth, kind, size, is_start }
}

fn sample_walk() -> Vec<WalkEntry> {
    vec![
        entry(0, EntryKind::Directory, None, true),
        entry(1, EntryKind::File, Some(10), false),
        entry(1, EntryKind::Directory, None, false),
        entry(2, EntryKind::File, Some(5), false),
        entry(2, EntryKind::Directory, None, false),
        entry(3, EntryKind::File, None, false),
        entry(3, EntryKind::Other, None, false),
    ]
}

#[test]
fn statistics_of_a_walk() {
    let stats = ArchiveServices::new().get_directory_statistics(&sample_walk());
    assert_eq!(
        stats,
        DirectoryStatistics { total_size: 15, directory_count: 3, file_count: 3, max_depth: 3 }
    );
    let empty = ArchiveServices::default().get_directory_statistics(&[]);
    assert_eq!(empty, DirectoryStatistics::default());
}

#[test]
fn first_scanner_statistics_skip_the_start() {
    let stats = scan_directory_only(&sample_walk());
    assert_eq!(
        stats,
        DirectoryStatistics { total_size: 15, directory_count: 2, file_count: 3, max_depth: 2 }
    );
    let only_start = scan_directory_only(&[entry(0, EntryKind::Directory, None, true)]);
    assert_eq!(only_start, DirectoryStatistics::default());
}

#[test]
fn scan_creates_a_new_root_waiting_to_archive() {
    let s = ArchiveServices::new();
    match s.plan_root_record(None, "/data/photos".into(), "photos".into()) {
        RootRecordAction::Create(r) => {
            assert_eq!(r.root_path, "/data/photos");
            assert_eq!(r.root_name, "photos");
            assert_eq!(r.status, RootStatus::WaitToArchive);
            assert_eq!(r.status, SCANNED_ROOT_STATUS);
            assert_eq!(r.id, None);
        }
        RootRecordAction::MarkExisting(_) => panic!("root is new"),
    }
    let known = InfoRoot { id: Some(4), ..InfoRoot::new("/d".into(), "d".into(), RootStatus::Health) };
    match s.plan_root_record(Some(known), "/d".into(), "d".into()) {
        RootRecordAction::MarkExisting(id) => assert_eq!(id, 4),
        RootRecordAction::Create(_) => panic!("root is indexed"),
    }
}

#[test]
fn scan_updates_or_inserts_directories() {
    let s = ArchiveServices::new();
    let known = InfoDirectory {
        id: Some(12),
        ..InfoDirectory::new(4, "docs".into(), 1, Some("docs".into()), DirectoryStatus::WaitToDelete)
    };
    match s.plan_directory_record(Some(known), 4, "docs".into(), 500, "docs".into()) {
        DirectoryRecordAction::Update(d) => {
            assert_eq!(d.id, Some(12));
            assert_eq!(d.directory_mtime, 500);
            assert_eq!(d.status, DirectoryStatus::WaitToArchive);
        }
        DirectoryRecordAction::Insert(_) => panic!("directory is indexed"),
    }
    match s.plan_directory_record(None, 4, "new".into(), 7, "a/new".into()) {
        DirectoryRecordAction::Insert(d) => {
            assert_eq!(d.root_id, 4);
            assert_eq!(d.directory_name, "new");
            assert_eq!(d.directory_path.as_deref(), Some("a/new"));
            assert_eq!(d.status, DirectoryStatus::WaitToArchive);
        }
        DirectoryRecordAction::Update(_) => panic!("directory is new"),
    }
}

#[test]
fn scan_updates_or_inserts_files() {
    let s = ArchiveServices::new();
    let known = InfoFile {
        id: Some(30),
        ..InfoFile::new(12, "a.txt".into(), 3, 1, Some("old".into()), FileStatus::WaitToDelete)
    };
    match s.plan_file_record(Some(known), 12, "a.txt".into(), 3, 2, Some("new".into())) {
        FileRecordAction::Update(f) => {
            assert_eq!(f.id, Some(30));
            assert_eq!(f.file_hash.as_deref(), Some("new"));
            assert_eq!(f.status, FileStatus::WaitToArchive);
        }
        FileRecordAction::Insert(_) => panic!("file is indexed"),
    }
    match s.plan_file_record(None, 12, "b.txt".into(), 9, 4, None) {
        FileRecordAction::Insert(f) => {
            assert_eq!(f.directory_id, 12);
            assert_eq!(f.file_name, "b.txt");
            assert_eq!(f.file_size, 9);
            assert_eq!(f.file_mtime, 4);
            assert_eq!(f.file_hash, None);
            assert_eq!(f.status, FileStatus::WaitToArchive);
        }
        FileRecordAction::Update(_) => panic!("file is new"),
    }
}

fn dir(id: i64, path: Option<&str>) -> IndexedDirectory {
    IndexedDirectory { id, directory_path: path.map(|p| p.to_string()), status: first::DirectoryStatus::UNARCHIVED }
}

fn file(directory_id: i64, name: &str, hash: Option<&str>) -> IndexedFile {
    IndexedFile {
        id: directory_id * 100 + name.len() as i64,
        directory_id,
        file_name: name.to_string(),
        file_hash: hash.map(|h| h.to_string()),
        status: first::FileStatus::HEALTH,
    }
}

#[test]
fn rescan_restores_known_directories() {
    let known = vec![dir(1, Some("")), dir(2, None), dir(3, Some("a")), dir(4, Some("a"))];
    assert_eq!(find_indexed_directory(&known, "a"), Some(2));
    assert_eq!(find_indexed_directory(&known, ""), Some(0));
    assert_eq!(find_indexed_directory(&known, "b"), None);
    assert_eq!(plan_rescanned_directory(Some(&known), "a"), RescanDirectoryAction::Restore(2));
    assert_eq!(plan_rescanned_directory(Some(&known), "b"), RescanDirectoryAction::Insert);
    assert_eq!(plan_rescanned_directory(None, "a"), RescanDirectoryAction::Insert);
    assert_eq!(NEW_DIRECTORY_STATUS, first::DirectoryStatus::HEALTH);
    assert_eq!(RESCAN_ROOT_STATUS, first::RootStatus::UPDATING);
}

#[test]
fn rescan_marks_changed_files() {
    let known = vec![file(1, "x", Some("h1")), file(2, "x", Some("h2")), file(2, "y", None)];
    assert_eq!(find_indexed_file(&known, 2, "x"), Some(1));
    assert_eq!(find_indexed_file(&known, 3, "x"), None);
    assert_eq!(
        plan_rescanned_file(Some(&known), 2, "x", &Some("h2".into())),
        RescanFileAction::Restore(1)
    );
    assert_eq!(
        plan_rescanned_file(Some(&known), 2, "x", &Some("h9".into())),
        RescanFileAction::MarkChanged(1)
    );
    assert_eq!(plan_rescanned_file(Some(&known), 2, "y", &None), RescanFileAction::Restore(2));
    assert_eq!(
        plan_rescanned_file(Some(&known), 2, "y", &Some("h".into())),
        RescanFileAction::MarkChanged(2)
    );
    assert_eq!(plan_rescanned_file(Some(&known), 2, "z", &None), RescanFileAction::Insert);
    assert_eq!(plan_rescanned_file(None, 2, "x", &None), RescanFileAction::Insert);
    assert_eq!(CHANGED_FILE_STATUS, first::FileStatus::UNARCHIVED);
    assert!(same_opt_text(&None, &None));
    assert!(!same_opt_text(&Some("a".into()), &None));
    assert!(same_opt_text(&Some("a".into()), &Some("a".into())));
}

#[test]
fn rescan_rows_take_current_attributes() {
    let known = vec![dir(1, Some("")), dir(3, Some("a"))];
    let row = rescanned_directory_row(Some(&known), 9, "a".into(), 777, "a".into());
    assert_eq!(row.id, Some(3));
    assert_eq!(row.status, first::DirectoryStatus::UNARCHIVED);
    assert_eq!(row.directory_mtime, 777);
    assert_eq!(row.directory_path.as_deref(), Some("a"));
    let row = rescanned_directory_row(Some(&known), 9, "b".into(), 5, "x/b".into());
    assert_eq!(row.id, None);
    assert_eq!(row.status, first::DirectoryStatus::HEALTH);
    assert_eq!((row.root_id, row.directory_mtime), (9, 5));
    assert_eq!(rescanned_directory_row(None, 9, "a".into(), 1, "a".into()).id, None);

    let files = vec![file(2, "x", Some("h1"))];
    let same = rescanned_file_row(Some(&files), 2, "x".into(), 40, 50, Some("h1".into()));
    assert_eq!(same.id, Some(201));
    assert_eq!(same.status, first::FileStatus::HEALTH);
    assert_eq!((same.file_size, same.file_mtime), (40, 50));
    let changed = rescanned_file_row(Some(&files), 2, "x".into(), 41, 51, Some("h2".into()));
    assert_eq!(changed.id, Some(201));
    assert_eq!(changed.status, first::FileStatus::UNARCHIVED);
    assert_eq!(changed.file_hash.as_deref(), Some("h2"));
    let unreadable = rescanned_file_row(Some(&files), 2, "x".into(), 41, 51, None);
    assert_eq!(unreadable.status, first::FileStatus::UNARCHIVED);
    let new = rescanned_file_row(Some(&files), 2, "y".into(), 3, 4, Some("h".into()));
    assert_eq!(new.id, None);
    assert_eq!(new.status, first::FileStatus::UNARCHIVED);
    assert_eq!(new.file_size, 3);
    assert_eq!(rescanned_file_row(None, 2, "x".into(), 1, 1, None).id, None);
}
