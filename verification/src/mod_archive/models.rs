//! Data models of the archiving module: directory statistics and the entries
//! of a directory walk from which they are counted.
use vstd::prelude::*;

verus! {

/// Totals collected by walking a directory tree.
#[derive(Debug, Clone, Copy, PartialEq, Eq, Structural)]
pub struct DirectoryStatistics {
    pub total_size: u64,
    pub directory_count: u32,
    pub file_count: u32,
    pub max_depth: u32,
}

impl Default for DirectoryStatistics {
    /// All totals zero.
    fn default() -> (r: Self)
        ensures
            r.total_size == 0,
            r.directory_count == 0,
            r.file_count == 0,
            r.max_depth == 0,
    {
        DirectoryStatistics { total_size: 0, directory_count: 0, file_count: 0, max_depth: 0 }
    }
}

/// What a walked path turned out to be.
#[derive(Debug, Clone, Copy, PartialEq, Eq, Structural)]
pub enum EntryKind {
    Directory,
    File,
    /// Neither a directory nor a regular file (for example a broken link).
    Other,
}

/// One path met while walking a directory tree.
#[derive(Debug, Clone, Copy, PartialEq, Eq, Structural)]
pub struct WalkEntry {
    /// Number of path components below the start of the walk.
    pub depth: u32,
    pub kind: EntryKind,
    /// The file size, when its metadata could be read.
    pub size: Option<u64>,
    /// Whether this is the start directory itself.
    pub is_start: bool,
}

/// The bytes that a file entry adds to a total: its size when known.
pub open spec fn entry_bytes(e: WalkEntry) -> int {
    if e.kind == EntryKind::File {
        match e.size {
            Some(n) => n as int,
            None => 0,
        }
    } else {
        0
    }
}

/// Sum of the sizes of the files among the entries.
pub open spec fn walk_total_size(entries: Seq<WalkEntry>) -> int
    decreases entries.len(),
{
    if entries.len() == 0 {
        0
    } else {
        walk_total_size(entries.drop_last()) + entry_bytes(entries.last())
    }
}

/// Number of entries of the given kind.
pub open spec fn walk_count(entries: Seq<WalkEntry>, kind: EntryKind) -> int
    decreases entries.len(),
{
    if entries.len() == 0 {
        0
    } else {
        walk_count(entries.drop_last(), kind) + if entries.last().kind == kind {
            1int
        } else {
            0int
        }
    }
}

/// Largest depth among the entries, 0 when there are none.
pub open spec fn walk_max_depth(entries: Seq<WalkEntry>) -> int
    decreases entries.len(),
{
    if entries.len() == 0 {
        0
    } else {
        let m = walk_max_depth(entries.drop_last());
        if entries.last().depth > m {
            entries.last().depth as int
        } else {
            m
        }
    }
}

/// The largest depth of a walk is the depth of its deepest entry, whatever
/// the order of the walk: no entry is deeper, and when there is an entry,
/// one has exactly that depth; an empty walk has largest depth 0.
pub proof fn lemma_walk_max_depth_is_deepest(entries: Seq<WalkEntry>)
    ensures
        forall|i: int| 0 <= i < entries.len() ==> (#[trigger] entries[i]).depth <= walk_max_depth(entries),
        entries.len() > 0 ==> exists|j: int|
            0 <= j < entries.len() && (#[trigger] entries[j]).depth == walk_max_depth(entries),
        entries.len() == 0 ==> walk_max_depth(entries) == 0,
    decreases entries.len(),
{
    if entries.len() > 0 {
        let rest = entries.drop_last();
        lemma_walk_max_depth_is_deepest(rest);
        let last = entries.len() - 1;
        assert(entries.last() == entries[last]);
        assert forall|i: int| 0 <= i < last implies #[trigger] entries[i] == rest[i] by {}
        if rest.len() > 0 {
            let j = choose|j: int| 0 <= j < rest.len() && (#[trigger] rest[j]).depth == walk_max_depth(rest);
            assert(entries[j] == rest[j]);
            if entries[last].depth > walk_max_depth(rest) {
                assert(entries[last].depth == walk_max_depth(entries));
            } else {
                assert(entries[j].depth == walk_max_depth(entries));
            }
        } else {
            assert(entries[last].depth >= 0);
            if entries[last].depth > 0 {
                assert(entries[last].depth == walk_max_depth(entries));
            } else {
                assert(entries[last].depth == walk_max_depth(entries));
            }
        }
    }
}

/// The totals of a walk add up over its parts, so they do not depend on
/// the order in which the walk met its entries: a file entry adds its size
/// when it is known and nothing otherwise, another entry adds no bytes, and
/// each entry adds one to the count of its own kind only.
pub proof fn lemma_walk_totals_add_up(a: Seq<WalkEntry>, b: Seq<WalkEntry>, kind: EntryKind)
    ensures
        walk_total_size(a + b) == walk_total_size(a) + walk_total_size(b),
        walk_count(a + b, kind) == walk_count(a, kind) + walk_count(b, kind),
        walk_total_size(Seq::empty()) == 0,
        walk_count(Seq::empty(), kind) == 0,
        forall|e: WalkEntry|
            walk_total_size(#[trigger] seq![e]) == (if e.kind == EntryKind::File {
                match e.size {
                    Some(n) => n as int,
                    None => 0int,
                }
            } else {
                0int
            }),
        forall|e: WalkEntry|
            walk_count(#[trigger] seq![e], kind) == (if e.kind == kind {
                1int
            } else {
                0int
            }),
    decreases b.len(),
{
    assert forall|e: WalkEntry| walk_total_size(#[trigger] seq![e]) == (if e.kind == EntryKind::File {
        match e.size {
            Some(n) => n as int,
            None => 0int,
        }
    } else {
        0int
    }) by {
        let one = seq![e];
        assert(one.len() == 1 && one.last() == e);
        assert(one.drop_last() =~= Seq::<WalkEntry>::empty());
        assert(walk_total_size(Seq::<WalkEntry>::empty()) == 0);
        assert(walk_total_size(one) == walk_total_size(one.drop_last()) + entry_bytes(one.last()));
    }
    assert forall|e: WalkEntry| walk_count(#[trigger] seq![e], kind) == (if e.kind == kind {
        1int
    } else {
        0int
    }) by {
        let one = seq![e];
        assert(one.len() == 1 && one.last() == e);
        assert(one.drop_last() =~= Seq::<WalkEntry>::empty());
        assert(walk_count(Seq::<WalkEntry>::empty(), kind) == 0);
        assert(walk_count(one, kind) == walk_count(one.drop_last(), kind) + if one.last().kind == kind {
            1int
        } else {
            0int
        });
    }
    if b.len() == 0 {
        assert(a + b =~= a);
    } else {
        lemma_walk_totals_add_up(a, b.drop_last(), kind);
        assert((a + b).drop_last() =~= a + b.drop_last());
        assert((a + b).last() == b.last());
    }
}

/// Totals of a prefix never exceed those of the whole walk.
pub proof fn lemma_walk_prefix(entries: Seq<WalkEntry>, i: int, kind: EntryKind)
    requires
        0 <= i <= entries.len(),
    ensures
        0 <= walk_total_size(entries.subrange(0, i)) <= walk_total_size(entries),
        0 <= walk_count(entries.subrange(0, i), kind) <= walk_count(entries, kind),
        walk_count(entries, kind) <= entries.len(),
    decreases entries.len(),
{
    if entries.len() > 0 {
        if i == entries.len() {
            assert(entries.subrange(0, i) =~= entries);
            lemma_walk_prefix(entries.drop_last(), i - 1, kind);
        } else {
            assert(entries.drop_last().subrange(0, i) =~= entries.subrange(0, i));
            lemma_walk_prefix(entries.drop_last(), i, kind);
        }
    }
}

} // verus!
