//! The first scanning service. Statistics of a directory tree count the
//! files, their bytes and the directories below the start directory, and only
//! such directories set the depth. A rescan of an indexed root compares what
//! it meets with the records read before the scan began: a known directory and
//! an unchanged file get their records back as they were, a changed file is
//! marked unarchived, and anything new is inserted.
use vstd::prelude::*;
pub use crate::mod_archive::models::DirectoryStatistics;
use crate::mod_archive::models::{EntryKind, WalkEntry};
use crate::database::constants::{DirectoryStatus, FileStatus, RootStatus};
use crate::text::str_eq;

verus! {

/// Whether a walked entry counts as a directory of the tree.
pub open spec fn counts_as_directory(e: WalkEntry) -> bool {
    e.kind == EntryKind::Directory && !e.is_start
}

/// Sum of the known sizes of the files among the entries.
pub open spec fn tree_total_size(entries: Seq<WalkEntry>) -> int
    decreases entries.len(),
{
    if entries.len() == 0 {
        0
    } else {
        let e = entries.last();
        tree_total_size(entries.drop_last()) + if e.kind == EntryKind::File {
            match e.size {
                Some(n) => n as int,
                None => 0int,
            }
        } else {
            0int
        }
    }
}

/// Number of files among the entries.
pub open spec fn tree_file_count(entries: Seq<WalkEntry>) -> int
    decreases entries.len(),
{
    if entries.len() == 0 {
        0
    } else {
        tree_file_count(entries.drop_last()) + if entries.last().kind == EntryKind::File {
            1int
        } else {
            0int
        }
    }
}

/// Number of directories among the entries, the start directory excluded.
pub open spec fn tree_directory_count(entries: Seq<WalkEntry>) -> int
    decreases entries.len(),
{
    if entries.len() == 0 {
        0
    } else {
        tree_directory_count(entries.drop_last()) + if counts_as_directory(entries.last()) {
            1int
        } else {
            0int
        }
    }
}

/// Largest depth of a counted directory, 0 when there is none.
pub open spec fn tree_max_depth(entries: Seq<WalkEntry>) -> int
    decreases entries.len(),
{
    if entries.len() == 0 {
        0
    } else {
        let m = tree_max_depth(entries.drop_last());
        let e = entries.last();
        if counts_as_directory(e) && e.depth > m {
            e.depth as int
        } else {
            m
        }
    }
}

/// Totals of a prefix never exceed those of the whole walk.
pub proof fn lemma_tree_prefix(entries: Seq<WalkEntry>, i: int)
    requires
        0 <= i <= entries.len(),
    ensures
        0 <= tree_total_size(entries.subrange(0, i)) <= tree_total_size(entries),
        0 <= tree_file_count(entries.subrange(0, i)) <= tree_file_count(entries) <= entries.len(),
        0 <= tree_directory_count(entries.subrange(0, i)) <= tree_directory_count(entries)
            <= entries.len(),
    decreases entries.len(),
{
    if entries.len() > 0 {
        if i == entries.len() {
            assert(entries.subrange(0, i) =~= entries);
            lemma_tree_prefix(entries.drop_last(), i - 1);
        } else {
            assert(entries.drop_last().subrange(0, i) =~= entries.subrange(0, i));
            lemma_tree_prefix(entries.drop_last(), i);
        }
    }
}

/// The totals of the first scanner add up over the parts of a walk, so they
/// do not depend on the order in which the walk met its entries: a file adds
/// its size when it is known and one file, a directory other than the start
/// adds one directory, and nothing else adds anything.
pub proof fn lemma_tree_totals_add_up(a: Seq<WalkEntry>, b: Seq<WalkEntry>)
    ensures
        tree_total_size(a + b) == tree_total_size(a) + tree_total_size(b),
        tree_file_count(a + b) == tree_file_count(a) + tree_file_count(b),
        tree_directory_count(a + b) == tree_directory_count(a) + tree_directory_count(b),
        tree_total_size(Seq::empty()) == 0,
        tree_file_count(Seq::empty()) == 0,
        tree_directory_count(Seq::empty()) == 0,
        forall|e: WalkEntry|
            tree_total_size(#[trigger] seq![e]) == (if e.kind == EntryKind::File {
                match e.size {
                    Some(n) => n as int,
                    None => 0int,
                }
            } else {
                0int
            }),
        forall|e: WalkEntry|
            tree_file_count(#[trigger] seq![e]) == (if e.kind == EntryKind::File {
                1int
            } else {
                0int
            }),
        forall|e: WalkEntry|
            tree_directory_count(#[trigger] seq![e]) == (if e.kind == EntryKind::Directory && !e.is_start {
                1int
            } else {
                0int
            }),
    decreases b.len(),
{
    assert forall|e: WalkEntry| tree_total_size(#[trigger] seq![e]) == (if e.kind == EntryKind::File {
        match e.size {
            Some(n) => n as int,
            None => 0int,
        }
    } else {
        0int
    }) by {
        let one = seq![e];
        assert(one.len() == 1 && one.last() == e);
        assert(one.drop_last() =~= Seq::<WalkEntry>::empty());
        assert(tree_total_size(Seq::<WalkEntry>::empty()) == 0);
        assert(tree_total_size(one) == tree_total_size(one.drop_last()) + if one.last().kind == EntryKind::File {
            match one.last().size {
                Some(n) => n as int,
                None => 0int,
            }
        } else {
            0int
        });
    }
    assert forall|e: WalkEntry| tree_file_count(#[trigger] seq![e]) == (if e.kind == EntryKind::File {
        1int
    } else {
        0int
    }) by {
        let one = seq![e];
        assert(one.len() == 1 && one.last() == e);
        assert(one.drop_last() =~= Seq::<WalkEntry>::empty());
        assert(tree_file_count(Seq::<WalkEntry>::empty()) == 0);
        assert(tree_file_count(one) == tree_file_count(one.drop_last()) + if one.last().kind == EntryKind::File {
            1int
        } else {
            0int
        });
    }
    assert forall|e: WalkEntry|
        tree_directory_count(#[trigger] seq![e]) == (if e.kind == EntryKind::Directory && !e.is_start {
            1int
        } else {
            0int
        }) by {
        let one = seq![e];
        assert(one.len() == 1 && one.last() == e);
        assert(one.drop_last() =~= Seq::<WalkEntry>::empty());
        assert(tree_directory_count(Seq::<WalkEntry>::empty()) == 0);
        assert(tree_directory_count(one) == tree_directory_count(one.drop_last()) + if counts_as_directory(one.last()) {
            1int
        } else {
            0int
        });
    }
    if b.len() == 0 {
        assert(a + b =~= a);
    } else {
        lemma_tree_totals_add_up(a, b.drop_last());
        assert((a + b).drop_last() =~= a + b.drop_last());
        assert((a + b).last() == b.last());
    }
}

/// The largest depth is the deepest counted directory, whatever the order of
/// the walk: no directory below the start is deeper, and when there is one,
/// some directory has exactly that depth; with none it is 0.
pub proof fn lemma_tree_max_depth_is_deepest(entries: Seq<WalkEntry>)
    ensures
        forall|i: int|
            0 <= i < entries.len() && (#[trigger] entries[i]).kind == EntryKind::Directory
                && !entries[i].is_start ==> entries[i].depth <= tree_max_depth(entries),
        (exists|i: int|
            0 <= i < entries.len() && (#[trigger] entries[i]).kind == EntryKind::Directory
                && !entries[i].is_start) ==> exists|j: int|
            0 <= j < entries.len() && (#[trigger] entries[j]).kind == EntryKind::Directory
                && !entries[j].is_start && entries[j].depth == tree_max_depth(entries),
        (forall|i: int|
            0 <= i < entries.len() ==> !((#[trigger] entries[i]).kind == EntryKind::Directory
                && !entries[i].is_start)) ==> tree_max_depth(entries) == 0,
    decreases entries.len(),
{
    if entries.len() > 0 {
        let rest = entries.drop_last();
        lemma_tree_max_depth_is_deepest(rest);
        let last = entries.len() - 1;
        assert(entries.last() == entries[last]);
        assert forall|i: int| 0 <= i < last implies #[trigger] entries[i] == rest[i] by {}
        if exists|i: int|
            0 <= i < entries.len() && (#[trigger] entries[i]).kind == EntryKind::Directory
                && !entries[i].is_start {
            if exists|i: int|
                0 <= i < rest.len() && (#[trigger] rest[i]).kind == EntryKind::Directory
                    && !rest[i].is_start {
                let j = choose|j: int|
                    0 <= j < rest.len() && (#[trigger] rest[j]).kind == EntryKind::Directory
                        && !rest[j].is_start && rest[j].depth == tree_max_depth(rest);
                assert(entries[j] == rest[j]);
                if counts_as_directory(entries[last]) && entries[last].depth > tree_max_depth(rest) {
                    assert(entries[last].depth == tree_max_depth(entries));
                } else {
                    assert(entries[j].depth == tree_max_depth(entries));
                }
            } else {
                let i = choose|i: int|
                    0 <= i < entries.len() && (#[trigger] entries[i]).kind == EntryKind::Directory
                        && !entries[i].is_start;
                if i < last {
                    assert(rest[i] == entries[i]);
                }
                assert(i == last);
                assert(tree_max_depth(rest) == 0);
                assert(entries[last].depth == tree_max_depth(entries));
            }
        }
        if forall|i: int|
            0 <= i < entries.len() ==> !((#[trigger] entries[i]).kind == EntryKind::Directory
                && !entries[i].is_start) {
            assert forall|i: int| 0 <= i < rest.len() implies !((#[trigger] rest[i]).kind
                == EntryKind::Directory && !rest[i].is_start) by {
                assert(rest[i] == entries[i]);
            }
        }
    }
}

/// Counts a walked tree without writing anything: bytes and number of the
/// files, number of directories below the start directory, and the largest
/// depth of such a directory.
pub fn scan_directory_only(entries: &[WalkEntry]) -> (r: DirectoryStatistics)
    requires
        entries@.len() <= u32::MAX,
        tree_total_size(entries@) <= u64::MAX,
    ensures
        r.total_size == tree_total_size(entries@),
        r.file_count == tree_file_count(entries@),
        r.directory_count == tree_directory_count(entries@),
        r.max_depth == tree_max_depth(entries@),
{
    let mut stats = DirectoryStatistics::default();
    let mut i: usize = 0;
    while i < entries.len()
        invariant
            i <= entries@.len(),
            entries@.len() <= u32::MAX,
            tree_total_size(entries@) <= u64::MAX,
            stats.total_size == tree_total_size(entries@.subrange(0, i as int)),
            stats.file_count == tree_file_count(entries@.subrange(0, i as int)),
            stats.directory_count == tree_directory_count(entries@.subrange(0, i as int)),
            stats.max_depth == tree_max_depth(entries@.subrange(0, i as int)),
        decreases entries@.len() - i,
    {
        let e = entries[i];
        proof {
            assert(entries@.subrange(0, i + 1).drop_last() =~= entries@.subrange(0, i as int));
            lemma_tree_prefix(entries@, i + 1);
            lemma_tree_prefix(entries@.subrange(0, i + 1), i + 1);
        }
        match e.kind {
            EntryKind::File => {
                stats.file_count = stats.file_count + 1;
                match e.size {
                    Some(n) => {
                        stats.total_size = stats.total_size + n;
                    },
                    None => {},
                }
            },
            EntryKind::Directory => {
                if !e.is_start {
                    stats.directory_count = stats.directory_count + 1;
                    if e.depth > stats.max_depth {
                        stats.max_depth = e.depth;
                    }
                }
            },
            EntryKind::Other => {},
        }
        i = i + 1;
    }
    proof {
        assert(entries@.subrange(0, i as int) =~= entries@);
    }
    stats
}

/// The status of the root while it is being rescanned.
pub const RESCAN_ROOT_STATUS: RootStatus = RootStatus::UPDATING;

/// The status of a directory met for the first time.
pub const NEW_DIRECTORY_STATUS: DirectoryStatus = DirectoryStatus::HEALTH;

/// The status of a file met for the first time or found changed.
pub const CHANGED_FILE_STATUS: FileStatus = FileStatus::UNARCHIVED;

/// An indexed directory as read before the rescan marked it: its row id,
/// its path relative to the root and the status to give back to it.
#[derive(Debug, Clone)]
pub struct IndexedDirectory {
    pub id: i64,
    pub directory_path: Option<String>,
    pub status: DirectoryStatus,
}

/// An indexed file as read before the rescan marked it: its row id, its
/// directory, its name, the content hash recorded for it and the status to
/// give back to it.
#[derive(Debug, Clone)]
pub struct IndexedFile {
    pub id: i64,
    pub directory_id: i64,
    pub file_name: String,
    pub file_hash: Option<String>,
    pub status: FileStatus,
}

/// A directory row to write: with an id it rewrites that row, without one
/// it is inserted.
#[derive(Debug, Clone)]
pub struct DirectoryRow {
    pub id: Option<i64>,
    pub root_id: i64,
    pub directory_name: String,
    pub directory_mtime: i64,
    pub directory_path: Option<String>,
    pub status: DirectoryStatus,
}

/// A file row to write: with an id it rewrites that row, without one it is
/// inserted.
#[derive(Debug, Clone)]
pub struct FileRow {
    pub id: Option<i64>,
    pub directory_id: i64,
    pub file_name: String,
    pub file_size: i64,
    pub file_mtime: i64,
    pub file_hash: Option<String>,
    pub status: FileStatus,
}

/// The characters of an optional text.
pub open spec fn opt_text(o: Option<String>) -> Option<Seq<char>> {
    match o {
        Some(s) => Some(s@),
        None => None,
    }
}

/// Whether two optional texts hold the same characters.
pub fn same_opt_text(a: &Option<String>, b: &Option<String>) -> (r: bool)
    ensures
        r == (opt_text(*a) == opt_text(*b)),
{
    match (a, b) {
        (Some(x), Some(y)) => str_eq(x.as_str(), y.as_str()),
        (None, None) => true,
        _ => false,
    }
}

/// Whether an indexed directory has the given relative path.
pub open spec fn directory_has_path(d: IndexedDirectory, path: Seq<char>) -> bool {
    opt_text(d.directory_path) == Some(path)
}

/// Whether an indexed file is the file `name` of directory `directory_id`.
pub open spec fn file_is(f: IndexedFile, directory_id: i64, name: Seq<char>) -> bool {
    f.directory_id == directory_id && f.file_name@ == name
}

/// Whether `i` is the first position of `list` with the given path.
pub open spec fn first_directory_at(list: Seq<IndexedDirectory>, path: Seq<char>, i: int) -> bool {
    &&& 0 <= i < list.len()
    &&& directory_has_path(list[i], path)
    &&& forall|j: int| 0 <= j < i ==> !directory_has_path(#[trigger] list[j], path)
}

/// Whether no position of `list` has the given path.
pub open spec fn no_directory_with(list: Seq<IndexedDirectory>, path: Seq<char>) -> bool {
    forall|j: int| 0 <= j < list.len() ==> !directory_has_path(#[trigger] list[j], path)
}

/// Whether `i` is the first position of `list` holding file `name` of
/// directory `directory_id`.
pub open spec fn first_file_at(list: Seq<IndexedFile>, directory_id: i64, name: Seq<char>, i: int) -> bool {
    &&& 0 <= i < list.len()
    &&& file_is(list[i], directory_id, name)
    &&& forall|j: int| 0 <= j < i ==> !file_is(#[trigger] list[j], directory_id, name)
}

/// Whether no position of `list` holds file `name` of directory
/// `directory_id`.
pub open spec fn no_file_with(list: Seq<IndexedFile>, directory_id: i64, name: Seq<char>) -> bool {
    forall|j: int| 0 <= j < list.len() ==> !file_is(#[trigger] list[j], directory_id, name)
}

/// The first indexed directory with the given relative path.
pub fn find_indexed_directory(existing: &[IndexedDirectory], relative_path: &str) -> (r: Option<usize>)
    ensures
        match r {
            Some(i) => first_directory_at(existing@, relative_path@, i as int),
            None => no_directory_with(existing@, relative_path@),
        },
{
    let mut i: usize = 0;
    while i < existing.len()
        invariant
            i <= existing@.len(),
            forall|j: int| 0 <= j < i ==> !directory_has_path(#[trigger] existing@[j], relative_path@),
        decreases existing@.len() - i,
    {
        let found = match &existing[i].directory_path {
            Some(p) => str_eq(p.as_str(), relative_path),
            None => false,
        };
        if found {
            return Some(i);
        }
        i = i + 1;
    }
    None
}

/// The first indexed file named `file_name` in directory `directory_id`.
pub fn find_indexed_file(existing: &[IndexedFile], directory_id: i64, file_name: &str) -> (r: Option<usize>)
    ensures
        match r {
            Some(i) => first_file_at(existing@, directory_id, file_name@, i as int),
            None => no_file_with(existing@, directory_id, file_name@),
        },
{
    let mut i: usize = 0;
    while i < existing.len()
        invariant
            i <= existing@.len(),
            forall|j: int| 0 <= j < i ==> !file_is(#[trigger] existing@[j], directory_id, file_name@),
        decreases existing@.len() - i,
    {
        if existing[i].directory_id == directory_id && str_eq(existing[i].file_name.as_str(), file_name) {
            return Some(i);
        }
        i = i + 1;
    }
    None
}

/// What a rescan writes for a directory it meets.
#[derive(Debug, Clone, Copy, PartialEq, Eq, Structural)]
pub enum RescanDirectoryAction {
    /// The directory is indexed at this position: rewrite that row with the
    /// directory's current attributes and its status from before the scan.
    Restore(usize),
    /// Insert a new row with `NEW_DIRECTORY_STATUS`.
    Insert,
}

/// What a rescan writes for a file it meets.
#[derive(Debug, Clone, Copy, PartialEq, Eq, Structural)]
pub enum RescanFileAction {
    /// The content is unchanged: rewrite the indexed row at this position
    /// with the file's current attributes and its status from before the
    /// scan.
    Restore(usize),
    /// The content changed: rewrite the indexed row at this position with
    /// the file's current attributes, the new hash and `CHANGED_FILE_STATUS`.
    MarkChanged(usize),
    /// Insert a new row with `CHANGED_FILE_STATUS`.
    Insert,
}

/// Decides what to write for a directory met while scanning, from the
/// directories indexed before the scan (`None` for a new root).
pub fn plan_rescanned_directory(existing: Option<&[IndexedDirectory]>, relative_path: &str) -> (r:
    RescanDirectoryAction)
    ensures
        existing is None ==> r == RescanDirectoryAction::Insert,
        existing matches Some(list) ==> match r {
            RescanDirectoryAction::Restore(i) => first_directory_at(list@, relative_path@, i as int),
            RescanDirectoryAction::Insert => no_directory_with(list@, relative_path@),
        },
{
    match existing {
        None => RescanDirectoryAction::Insert,
        Some(list) => match find_indexed_directory(list, relative_path) {
            Some(i) => RescanDirectoryAction::Restore(i),
            None => RescanDirectoryAction::Insert,
        },
    }
}

/// Decides what to write for a file met while scanning, from the files
/// indexed before the scan (`None` for a new root) and the hash of its
/// content now (`None` when it could not be read).
pub fn plan_rescanned_file(
    existing: Option<&[IndexedFile]>,
    directory_id: i64,
    file_name: &str,
    file_hash: &Option<String>,
) -> (r: RescanFileAction)
    ensures
        existing is None ==> r == RescanFileAction::Insert,
        existing matches Some(list) ==> match r {
            RescanFileAction::Restore(i) => first_file_at(list@, directory_id, file_name@, i as int)
                && opt_text(list@[i as int].file_hash) == opt_text(*file_hash),
            RescanFileAction::MarkChanged(i) => first_file_at(list@, directory_id, file_name@, i as int)
                && opt_text(list@[i as int].file_hash) != opt_text(*file_hash),
            RescanFileAction::Insert => no_file_with(list@, directory_id, file_name@),
        },
{
    match existing {
        None => RescanFileAction::Insert,
        Some(list) => match find_indexed_file(list, directory_id, file_name) {
            Some(i) => {
                if same_opt_text(&list[i].file_hash, file_hash) {
                    RescanFileAction::Restore(i)
                } else {
                    RescanFileAction::MarkChanged(i)
                }
            },
            None => RescanFileAction::Insert,
        },
    }
}

/// The row of a directory met for the first time.
pub open spec fn new_directory_row(
    root_id: i64,
    directory_name: String,
    directory_mtime: i64,
    relative_path: String,
) -> DirectoryRow {
    DirectoryRow {
        id: None,
        root_id,
        directory_name,
        directory_mtime,
        directory_path: Some(relative_path),
        status: NEW_DIRECTORY_STATUS,
    }
}

/// The row of an indexed directory met again: its id and its status from
/// before the scan, with the directory's current attributes.
pub open spec fn restored_directory_row(
    d: IndexedDirectory,
    root_id: i64,
    directory_name: String,
    directory_mtime: i64,
    relative_path: String,
) -> DirectoryRow {
    DirectoryRow {
        id: Some(d.id),
        root_id,
        directory_name,
        directory_mtime,
        directory_path: Some(relative_path),
        status: d.status,
    }
}

/// The row a rescan writes for a directory met at `relative_path`, given the
/// directories indexed before the scan.
pub open spec fn spec_rescanned_directory_row(
    list: Seq<IndexedDirectory>,
    root_id: i64,
    directory_name: String,
    directory_mtime: i64,
    relative_path: String,
) -> DirectoryRow {
    if exists|i: int| first_directory_at(list, relative_path@, i) {
        restored_directory_row(
            list[choose|i: int| first_directory_at(list, relative_path@, i)],
            root_id,
            directory_name,
            directory_mtime,
            relative_path,
        )
    } else {
        new_directory_row(root_id, directory_name, directory_mtime, relative_path)
    }
}

/// There is at most one first position with a given path.
pub proof fn lemma_first_directory_unique(list: Seq<IndexedDirectory>, path: Seq<char>, i: int, k: int)
    requires
        first_directory_at(list, path, i),
        first_directory_at(list, path, k),
    ensures
        i == k,
{
    if k < i {
        assert(!directory_has_path(list[k], path));
    }
    if i < k {
        assert(!directory_has_path(list[i], path));
    }
}

/// A first position with the path exists exactly when some position has it.
pub proof fn lemma_first_directory_exists(list: Seq<IndexedDirectory>, path: Seq<char>)
    ensures
        (exists|i: int| first_directory_at(list, path, i)) <==> !no_directory_with(list, path),
    decreases list.len(),
{
    if list.len() > 0 {
        let rest = list.drop_last();
        lemma_first_directory_exists(rest, path);
        if exists|i: int| first_directory_at(rest, path, i) {
            let i = choose|i: int| first_directory_at(rest, path, i);
            assert forall|j: int| 0 <= j < i implies !directory_has_path(#[trigger] list[j], path) by {
                assert(list[j] == rest[j]);
            }
            assert(list[i] == rest[i]);
            assert(first_directory_at(list, path, i));
        } else if directory_has_path(list.last(), path) {
            assert forall|j: int| 0 <= j < list.len() - 1 implies !directory_has_path(
                #[trigger] list[j],
                path,
            ) by {
                assert(list[j] == rest[j]);
            }
            assert(first_directory_at(list, path, list.len() - 1));
        } else {
            assert forall|j: int| 0 <= j < list.len() implies !directory_has_path(#[trigger] list[j], path) by {
                if j < list.len() - 1 {
                    assert(list[j] == rest[j]);
                }
            }
        }
    }
}

/// Builds the row to write for a directory met while scanning: the first
/// indexed directory with its relative path gets its row back with its
/// status from before the scan and the directory's current name and
/// modification time; a directory not indexed gets a new row.
pub fn rescanned_directory_row(
    existing: Option<&[IndexedDirectory]>,
    root_id: i64,
    directory_name: String,
    directory_mtime: i64,
    relative_path: String,
) -> (r: DirectoryRow)
    ensures
        existing is None ==> r == new_directory_row(root_id, directory_name, directory_mtime, relative_path),
        existing matches Some(list) ==> {
            &&& no_directory_with(list@, relative_path@) ==> r == new_directory_row(
                root_id,
                directory_name,
                directory_mtime,
                relative_path,
            )
            &&& forall|i: int|
                first_directory_at(list@, relative_path@, i) ==> r == restored_directory_row(
                    #[trigger] list@[i],
                    root_id,
                    directory_name,
                    directory_mtime,
                    relative_path,
                )
        },
        existing matches Some(list) ==> r == spec_rescanned_directory_row(
            list@,
            root_id,
            directory_name,
            directory_mtime,
            relative_path,
        ),
{
    let ghost path = relative_path@;
    proof {
        if existing is Some {
            lemma_first_directory_exists(existing.unwrap()@, path);
            if exists|i: int| first_directory_at(existing.unwrap()@, path, i) {
                let c = choose|i: int| first_directory_at(existing.unwrap()@, path, i);
                assert forall|k: int| first_directory_at(existing.unwrap()@, path, k) implies k == c by {
                    lemma_first_directory_unique(existing.unwrap()@, path, c, k);
                }
            }
        }
    }
    match plan_rescanned_directory(existing, relative_path.as_str()) {
        RescanDirectoryAction::Restore(i) => {
            let list = match existing {
                Some(list) => list,
                None => {
                    proof {
                        assert(false);
                    }
                    return DirectoryRow {
                        id: None,
                        root_id,
                        directory_name,
                        directory_mtime,
                        directory_path: Some(relative_path),
                        status: NEW_DIRECTORY_STATUS,
                    };
                },
            };
            proof {
                assert forall|k: int| first_directory_at(list@, relative_path@, k) implies k == i by {
                    if k < i {
                        assert(!directory_has_path(list@[k], relative_path@));
                    }
                    if i < k {
                        assert(!directory_has_path(list@[i as int], relative_path@));
                    }
                }
            }
            DirectoryRow {
                id: Some(list[i].id),
                root_id,
                directory_name,
                directory_mtime,
                directory_path: Some(relative_path),
                status: list[i].status,
            }
        },
        RescanDirectoryAction::Insert => DirectoryRow {
            id: None,
            root_id,
            directory_name,
            directory_mtime,
            directory_path: Some(relative_path),
            status: NEW_DIRECTORY_STATUS,
        },
    }
}

/// The row of a file met for the first time.
pub open spec fn new_file_row(
    directory_id: i64,
    file_name: String,
    file_size: u64,
    file_mtime: i64,
    file_hash: Option<String>,
) -> FileRow {
    FileRow {
        id: None,
        directory_id,
        file_name,
        file_size: file_size as i64,
        file_mtime,
        file_hash,
        status: CHANGED_FILE_STATUS,
    }
}

/// The row of an indexed file met again: its id with the file's current
/// attributes; its status from before the scan when the content hash is the
/// recorded one, `CHANGED_FILE_STATUS` otherwise.
pub open spec fn rescanned_known_file_row(
    f: IndexedFile,
    directory_id: i64,
    file_name: String,
    file_size: u64,
    file_mtime: i64,
    file_hash: Option<String>,
) -> FileRow {
    FileRow {
        id: Some(f.id),
        directory_id,
        file_name,
        file_size: file_size as i64,
        file_mtime,
        file_hash,
        status: if opt_text(f.file_hash) == opt_text(file_hash) {
            f.status
        } else {
            CHANGED_FILE_STATUS
        },
    }
}

/// The row a rescan writes for a file met in directory `directory_id`,
/// given the files indexed before the scan.
pub open spec fn spec_rescanned_file_row(
    list: Seq<IndexedFile>,
    directory_id: i64,
    file_name: String,
    file_size: u64,
    file_mtime: i64,
    file_hash: Option<String>,
) -> FileRow {
    if exists|i: int| first_file_at(list, directory_id, file_name@, i) {
        rescanned_known_file_row(
            list[choose|i: int| first_file_at(list, directory_id, file_name@, i)],
            directory_id,
            file_name,
            file_size,
            file_mtime,
            file_hash,
        )
    } else {
        new_file_row(directory_id, file_name, file_size, file_mtime, file_hash)
    }
}

/// There is at most one first position holding a given file.
pub proof fn lemma_first_file_unique(list: Seq<IndexedFile>, directory_id: i64, name: Seq<char>, i: int, k: int)
    requires
        first_file_at(list, directory_id, name, i),
        first_file_at(list, directory_id, name, k),
    ensures
        i == k,
{
    if k < i {
        assert(!file_is(list[k], directory_id, name));
    }
    if i < k {
        assert(!file_is(list[i], directory_id, name));
    }
}

/// A first position holding the file exists exactly when some position
/// holds it.
pub proof fn lemma_first_file_exists(list: Seq<IndexedFile>, directory_id: i64, name: Seq<char>)
    ensures
        (exists|i: int| first_file_at(list, directory_id, name, i)) <==> !no_file_with(list, directory_id, name),
    decreases list.len(),
{
    if list.len() > 0 {
        let rest = list.drop_last();
        lemma_first_file_exists(rest, directory_id, name);
        if exists|i: int| first_file_at(rest, directory_id, name, i) {
            let i = choose|i: int| first_file_at(rest, directory_id, name, i);
            assert forall|j: int| 0 <= j < i implies !file_is(#[trigger] list[j], directory_id, name) by {
                assert(list[j] == rest[j]);
            }
            assert(list[i] == rest[i]);
            assert(first_file_at(list, directory_id, name, i));
        } else if file_is(list.last(), directory_id, name) {
            assert forall|j: int| 0 <= j < list.len() - 1 implies !file_is(#[trigger] list[j], directory_id, name) by {
                assert(list[j] == rest[j]);
            }
            assert(first_file_at(list, directory_id, name, list.len() - 1));
        } else {
            assert forall|j: int| 0 <= j < list.len() implies !file_is(#[trigger] list[j], directory_id, name) by {
                if j < list.len() - 1 {
                    assert(list[j] == rest[j]);
                }
            }
        }
    }
}

/// Builds the row to write for a file met while scanning: the first indexed
/// file with its name in its directory gets its row back with the file's
/// current size, time and hash, keeping its status from before the scan when
/// the content is unchanged and marked unarchived when it changed; a file
/// not indexed gets a new, unarchived row.
pub fn rescanned_file_row(
    existing: Option<&[IndexedFile]>,
    directory_id: i64,
    file_name: String,
    file_size: u64,
    file_mtime: i64,
    file_hash: Option<String>,
) -> (r: FileRow)
    ensures
        existing is None ==> r == new_file_row(directory_id, file_name, file_size, file_mtime, file_hash),
        existing matches Some(list) ==> {
            &&& no_file_with(list@, directory_id, file_name@) ==> r == new_file_row(
                directory_id,
                file_name,
                file_size,
                file_mtime,
                file_hash,
            )
            &&& forall|i: int|
                first_file_at(list@, directory_id, file_name@, i) ==> r == rescanned_known_file_row(
                    #[trigger] list@[i],
                    directory_id,
                    file_name,
                    file_size,
                    file_mtime,
                    file_hash,
                )
        },
        existing matches Some(list) ==> r == spec_rescanned_file_row(
            list@,
            directory_id,
            file_name,
            file_size,
            file_mtime,
            file_hash,
        ),
{
    let ghost name = file_name@;
    proof {
        if existing is Some {
            lemma_first_file_exists(existing.unwrap()@, directory_id, name);
            if exists|i: int| first_file_at(existing.unwrap()@, directory_id, name, i) {
                let c = choose|i: int| first_file_at(existing.unwrap()@, directory_id, name, i);
                assert forall|k: int| first_file_at(existing.unwrap()@, directory_id, name, k) implies k == c by {
                    lemma_first_file_unique(existing.unwrap()@, directory_id, name, c, k);
                }
            }
        }
    }
    let action = plan_rescanned_file(existing, directory_id, file_name.as_str(), &file_hash);
    let list = match existing {
        Some(list) => list,
        None => {
            return FileRow {
                id: None,
                directory_id,
                file_name,
                file_size: file_size as i64,
                file_mtime,
                file_hash,
                status: CHANGED_FILE_STATUS,
            };
        },
    };
    match action {
        RescanFileAction::Insert => FileRow {
            id: None,
            directory_id,
            file_name,
            file_size: file_size as i64,
            file_mtime,
            file_hash,
            status: CHANGED_FILE_STATUS,
        },
        RescanFileAction::Restore(i) | RescanFileAction::MarkChanged(i) => {
            proof {
                assert forall|k: int| first_file_at(list@, directory_id, file_name@, k) implies k == i by {
                    if k < i {
                        assert(!file_is(list@[k], directory_id, file_name@));
                    }
                    if i < k {
                        assert(!file_is(list@[i as int], directory_id, file_name@));
                    }
                }
            }
            let status = match action {
                RescanFileAction::Restore(_) => list[i].status,
                _ => CHANGED_FILE_STATUS,
            };
            FileRow {
                id: Some(list[i].id),
                directory_id,
                file_name,
                file_size: file_size as i64,
                file_mtime,
                file_hash,
                status,
            }
        },
    }
}

/// The rows a rescan writes for the directories it meets, in walk order;
/// each directory met is given by its name, its modification time and its
/// path relative to the root.
pub open spec fn rescan_directory_writes(
    list: Seq<IndexedDirectory>,
    root_id: i64,
    met: Seq<(String, i64, String)>,
) -> Seq<DirectoryRow> {
    Seq::new(
        met.len(),
        |k: int| spec_rescanned_directory_row(list, root_id, met[k].0, met[k].1, met[k].2),
    )
}

/// The rows a rescan writes for the files it meets, in walk order; each file
/// met is given by its directory's row id, its name, size, modification time
/// and content hash.
pub open spec fn rescan_file_writes(
    list: Seq<IndexedFile>,
    met: Seq<(i64, String, u64, i64, Option<String>)>,
) -> Seq<FileRow> {
    Seq::new(
        met.len(),
        |k: int| spec_rescanned_file_row(list, met[k].0, met[k].1, met[k].2, met[k].3, met[k].4),
    )
}

/// A rescan of an indexed root, for directories: a directory met again gets
/// its indexed row back with its status from before the scan and its current
/// name and time; a directory met for the first time gets a new healthy row;
/// and no write touches an indexed directory that the scan does not meet, so
/// it keeps the waiting-to-be-deleted mark set when the scan began.
pub proof fn lemma_rescan_directories(list: Seq<IndexedDirectory>, root_id: i64, met: Seq<(String, i64, String)>)
    requires
        forall|i: int, j: int| 0 <= i < j < list.len() ==> (#[trigger] list[i]).id != (#[trigger] list[j]).id,
    ensures
        forall|k: int, i: int|
            0 <= k < met.len() && first_directory_at(list, met[k].2@, i) ==> (#[trigger] rescan_directory_writes(
                list,
                root_id,
                met,
            )[k]) == restored_directory_row(#[trigger] list[i], root_id, met[k].0, met[k].1, met[k].2),
        forall|k: int|
            0 <= k < met.len() && no_directory_with(list, met[k].2@) ==> (#[trigger] rescan_directory_writes(
                list,
                root_id,
                met,
            )[k]) == new_directory_row(root_id, met[k].0, met[k].1, met[k].2),
        forall|i: int, k: int|
            0 <= i < list.len() && 0 <= k < met.len() && (forall|m: int|
                0 <= m < met.len() ==> !directory_has_path(list[i], (#[trigger] met[m]).2@)) ==> (
            #[trigger] rescan_directory_writes(list, root_id, met)[k]).id != Some((#[trigger] list[i]).id),
{
    let w = rescan_directory_writes(list, root_id, met);
    assert forall|k: int, i: int|
        0 <= k < met.len() && first_directory_at(list, met[k].2@, i) implies (#[trigger] w[k])
        == restored_directory_row(#[trigger] list[i], root_id, met[k].0, met[k].1, met[k].2) by {
        let c = choose|c: int| first_directory_at(list, met[k].2@, c);
        lemma_first_directory_unique(list, met[k].2@, c, i);
    }
    assert forall|k: int|
        0 <= k < met.len() && no_directory_with(list, met[k].2@) implies (#[trigger] w[k])
        == new_directory_row(root_id, met[k].0, met[k].1, met[k].2) by {
        lemma_first_directory_exists(list, met[k].2@);
    }
    assert forall|i: int, k: int|
        0 <= i < list.len() && 0 <= k < met.len() && (forall|m: int|
            0 <= m < met.len() ==> !directory_has_path(list[i], (#[trigger] met[m]).2@)) implies (
    #[trigger] w[k]).id != Some((#[trigger] list[i]).id) by {
        if exists|c: int| first_directory_at(list, met[k].2@, c) {
            let c = choose|c: int| first_directory_at(list, met[k].2@, c);
            assert(!directory_has_path(list[i], met[k].2@));
            assert(c != i);
            if c < i {
                assert(list[c].id != list[i].id);
            } else {
                assert(list[i].id != list[c].id);
            }
        }
    }
}

/// A rescan of an indexed root, for files: a file met again gets its indexed
/// row back with its current size, time and hash, keeping its status from
/// before the scan when its content hash is the recorded one and marked
/// unarchived when it is not; a file met for the first time gets a new
/// unarchived row; and no write touches an indexed file that the scan does
/// not meet, so it keeps the waiting-to-be-deleted mark set when the scan
/// began.
pub proof fn lemma_rescan_files(list: Seq<IndexedFile>, met: Seq<(i64, String, u64, i64, Option<String>)>)
    requires
        forall|i: int, j: int| 0 <= i < j < list.len() ==> (#[trigger] list[i]).id != (#[trigger] list[j]).id,
    ensures
        forall|k: int, i: int|
            0 <= k < met.len() && first_file_at(list, met[k].0, met[k].1@, i) ==> (#[trigger] rescan_file_writes(
                list,
                met,
            )[k]) == rescanned_known_file_row(#[trigger] list[i], met[k].0, met[k].1, met[k].2, met[k].3, met[k].4),
        forall|k: int|
            0 <= k < met.len() && no_file_with(list, met[k].0, met[k].1@) ==> (#[trigger] rescan_file_writes(
                list,
                met,
            )[k]) == new_file_row(met[k].0, met[k].1, met[k].2, met[k].3, met[k].4),
        forall|i: int, k: int|
            0 <= i < list.len() && 0 <= k < met.len() && (forall|m: int|
                0 <= m < met.len() ==> !file_is(list[i], (#[trigger] met[m]).0, met[m].1@)) ==> (
            #[trigger] rescan_file_writes(list, met)[k]).id != Some((#[trigger] list[i]).id),
{
    let w = rescan_file_writes(list, met);
    assert forall|k: int, i: int|
        0 <= k < met.len() && first_file_at(list, met[k].0, met[k].1@, i) implies (#[trigger] w[k])
        == rescanned_known_file_row(#[trigger] list[i], met[k].0, met[k].1, met[k].2, met[k].3, met[k].4) by {
        let c = choose|c: int| first_file_at(list, met[k].0, met[k].1@, c);
        lemma_first_file_unique(list, met[k].0, met[k].1@, c, i);
    }
    assert forall|k: int|
        0 <= k < met.len() && no_file_with(list, met[k].0, met[k].1@) implies (#[trigger] w[k])
        == new_file_row(met[k].0, met[k].1, met[k].2, met[k].3, met[k].4) by {
        lemma_first_file_exists(list, met[k].0, met[k].1@);
    }
    assert forall|i: int, k: int|
        0 <= i < list.len() && 0 <= k < met.len() && (forall|m: int|
            0 <= m < met.len() ==> !file_is(list[i], (#[trigger] met[m]).0, met[m].1@)) implies (
    #[trigger] w[k]).id != Some((#[trigger] list[i]).id) by {
        if exists|c: int| first_file_at(list, met[k].0, met[k].1@, c) {
            let c = choose|c: int| first_file_at(list, met[k].0, met[k].1@, c);
            assert(!file_is(list[i], met[k].0, met[k].1@));
            assert(c != i);
            if c < i {
                assert(list[c].id != list[i].id);
            } else {
                assert(list[i].id != list[c].id);
            }
        }
    }
}

} // verus!
