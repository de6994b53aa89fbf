//! The archiving service: which files are archived, how a file is cut into
//! chunks that fit the volumes, when a chunk or a whole file is already stored,
//! how chunks are linked back to files, and the status a directory gets once
//! its files are archived.
use vstd::prelude::*;
use super::utils_archive::ArchiveProgress;
use crate::mod_database::constants::{ChunkStatus, DirectoryStatus, FileStatus, MapFileChunkStatus};
use crate::mod_database::schema::{ArchiveChunk, InfoDirectory, InfoFile, MapFileChunk, ViewFile};

verus! {

/// Why an archiving step could not go on.
#[derive(Debug, Clone, Copy, PartialEq, Eq, Structural)]
pub enum ArchiveError {
    /// The root holds no file that waits to be archived.
    NoFilesToArchive,
    /// No stored file carries the hash of the file being archived.
    NoMatchingFileId,
}

impl ArchiveError {
    /// The message shown to the user.
    pub fn message(&self) -> (r: &'static str)
        ensures
            *self == ArchiveError::NoFilesToArchive ==> r@ == "没有找到需要归档的文件"@,
            *self == ArchiveError::NoMatchingFileId ==> r@ == "找不到匹配的文件 ID"@,
    {
        match self {
            ArchiveError::NoFilesToArchive => "没有找到需要归档的文件",
            ArchiveError::NoMatchingFileId => "找不到匹配的文件 ID",
        }
    }
}

/// The archiving service.
#[derive(Debug, Clone, Copy)]
pub struct ArchiveServices;

/// The number of bytes to archive for a list of files: the sum of their sizes,
/// each read as an unsigned number.
pub open spec fn total_file_bytes(files: Seq<ViewFile>) -> int
    decreases files.len(),
{
    if files.len() == 0 {
        0
    } else {
        total_file_bytes(files.drop_last()) + (files.last().file_size as u64)
    }
}

/// The byte count of a prefix of a list never exceeds that of the list.
pub proof fn lemma_total_file_bytes_prefix(files: Seq<ViewFile>, i: int)
    requires
        0 <= i <= files.len(),
    ensures
        0 <= total_file_bytes(files.subrange(0, i)) <= total_file_bytes(files),
    decreases files.len(),
{
    if files.len() > 0 {
        if i == files.len() {
            assert(files.subrange(0, i) =~= files);
            lemma_total_file_bytes_prefix(files.drop_last(), i - 1);
        } else {
            assert(files.drop_last().subrange(0, i) =~= files.subrange(0, i));
            lemma_total_file_bytes_prefix(files.drop_last(), i);
        }
    }
}

/// The bytes to archive add up over the parts of a file list, so they do
/// not depend on its order; each file adds its size read as an unsigned
/// number.
pub proof fn lemma_total_file_bytes_add_up(a: Seq<ViewFile>, b: Seq<ViewFile>)
    ensures
        total_file_bytes(a + b) == total_file_bytes(a) + total_file_bytes(b),
        total_file_bytes(Seq::empty()) == 0,
        forall|f: ViewFile| total_file_bytes(#[trigger] seq![f]) == f.file_size as u64,
    decreases b.len(),
{
    assert forall|f: ViewFile| total_file_bytes(#[trigger] seq![f]) == f.file_size as u64 by {
        let one = seq![f];
        assert(one.len() == 1 && one.last() == f);
        assert(one.drop_last() =~= Seq::<ViewFile>::empty());
        assert(total_file_bytes(Seq::<ViewFile>::empty()) == 0);
        assert(total_file_bytes(one) == total_file_bytes(one.drop_last()) + (one.last().file_size as u64));
    }
    if b.len() == 0 {
        assert(a + b =~= a);
    } else {
        lemma_total_file_bytes_add_up(a, b.drop_last());
        assert((a + b).drop_last() =~= a + b.drop_last());
        assert((a + b).last() == b.last());
    }
}

/// Whether every file of `files` that belongs to directory `directory_id` is
/// healthy.
pub open spec fn directory_files_healthy(directory_id: i64, files: Seq<InfoFile>) -> bool {
    forall|i: int|
        0 <= i < files.len() && #[trigger] files[i].directory_id == directory_id
            ==> files[i].status == FileStatus::Health
}

/// The status of a directory once its files were archived: healthy when all
/// its files are, otherwise failed.
pub open spec fn archived_directory_status(directory: InfoDirectory, files: Seq<InfoFile>) -> DirectoryStatus {
    let directory_id = match directory.id {
        Some(id) => id,
        None => 0,
    };
    if directory_files_healthy(directory_id, files) {
        DirectoryStatus::Health
    } else {
        DirectoryStatus::ErrorArchivingFailed
    }
}

/// The links that tie file `file_id` to `chunk_ids`: one per chunk, in
/// order, with volume orders 1, 2, 3, ..., healthy, not stored yet.
pub open spec fn file_links(file_id: i64, chunk_ids: Seq<i64>) -> Seq<MapFileChunk> {
    Seq::new(
        chunk_ids.len(),
        |i: int|
            MapFileChunk {
                id: None,
                file_id,
                chunk_id: chunk_ids[i],
                volume_order: (i + 1) as i32,
                status: MapFileChunkStatus::Health,
                created_at: None,
                updated_at: None,
            },
    )
}

/// The chunk ids named by a list of links, in its order.
pub open spec fn link_chunk_ids(links: Seq<MapFileChunk>) -> Seq<i64> {
    links.map_values(|l: MapFileChunk| l.chunk_id)
}

/// After archiving, a directory is healthy exactly when every listed file of
/// it, at whatever position, is healthy: one file of the directory that is
/// not healthy makes it failed; files of other directories do not count. A
/// directory without a row id is matched against directory id 0.
pub proof fn lemma_archived_directory_status(directory: InfoDirectory, files: Seq<InfoFile>)
    ensures
        ({
            let id = match directory.id {
                Some(id) => id,
                None => 0,
            };
            &&& forall|i: int|
                0 <= i < files.len() && (#[trigger] files[i]).directory_id == id && files[i].status
                    != FileStatus::Health ==> archived_directory_status(directory, files)
                    == DirectoryStatus::ErrorArchivingFailed
            &&& (forall|i: int|
                0 <= i < files.len() && (#[trigger] files[i]).directory_id == id ==> files[i].status
                    == FileStatus::Health) ==> archived_directory_status(directory, files)
                == DirectoryStatus::Health
            &&& (archived_directory_status(directory, files) == DirectoryStatus::Health
                || archived_directory_status(directory, files) == DirectoryStatus::ErrorArchivingFailed)
        }),
{
}

impl ArchiveServices {
    /// The progress record at the start of a run over `total_files` files that
    /// hold `total_size` bytes.
    pub fn initialize_progress(&self, total_files: usize, total_size: u64) -> (r: ArchiveProgress)
        ensures
            r.total_files == total_files,
            r.processed_files == 0,
            r.processed_bytes == 0,
            r.total_bytes == total_size,
            r.current_file is None,
            !r.completed,
            r.error is None,
    {
        ArchiveProgress {
            total_files,
            processed_files: 0,
            processed_bytes: 0,
            total_bytes: total_size,
            current_file: None,
            completed: false,
            error: None,
        }
    }

    /// Takes the files of a root that wait to be archived (as read from the
    /// index) and returns them with their total size and their number; an
    /// empty list is an error.
    pub fn get_files_to_archive(&self, file_list: Vec<ViewFile>) -> (r: Result<
        (Vec<ViewFile>, u64, usize),
        ArchiveError,
    >)
        requires
            total_file_bytes(file_list@) <= u64::MAX,
        ensures
            file_list@.len() == 0 ==> r == Err::<(Vec<ViewFile>, u64, usize), ArchiveError>(
                ArchiveError::NoFilesToArchive,
            ),
            file_list@.len() > 0 ==> (r matches Ok((files, total, count)) && files@
                == file_list@ && total == total_file_bytes(file_list@) && count
                == file_list@.len()),
    {
        if file_list.len() == 0 {
            return Err(ArchiveError::NoFilesToArchive);
        }
        let mut total: u64 = 0;
        let mut i: usize = 0;
        while i < file_list.len()
            invariant
                i <= file_list@.len(),
                total == total_file_bytes(file_list@.subrange(0, i as int)),
                total_file_bytes(file_list@) <= u64::MAX,
            decreases file_list@.len() - i,
        {
            proof {
                assert(file_list@.subrange(0, i + 1).drop_last() =~= file_list@.subrange(0, i as int));
                lemma_total_file_bytes_prefix(file_list@, i + 1);
            }
            total = total + file_list[i].file_size as u64;
            i = i + 1;
        }
        proof {
            assert(file_list@.subrange(0, i as int) =~= file_list@);
        }
        let count = file_list.len();
        Ok((file_list, total, count))
    }

    /// The links from a file to its chunks: one per chunk, in the given order,
    /// with volume orders 1, 2, 3, ... and healthy status.
    pub fn save_map_file_chunk_list(file_info: &ViewFile, chunk_ids: &[i64]) -> (r: Vec<MapFileChunk>)
        requires
            chunk_ids@.len() < i32::MAX,
        ensures
            r@ == file_links(file_info.file_id, chunk_ids@),
    {
        let mut r: Vec<MapFileChunk> = Vec::new();
        let mut volume_order: i32 = 1;
        let mut i: usize = 0;
        while i < chunk_ids.len()
            invariant
                i <= chunk_ids@.len(),
                chunk_ids@.len() < i32::MAX,
                volume_order == i + 1,
                r@ == file_links(file_info.file_id, chunk_ids@.subrange(0, i as int)),
            decreases chunk_ids@.len() - i,
        {
            let map = MapFileChunk::new(
                file_info.file_id,
                chunk_ids[i],
                volume_order,
                MapFileChunkStatus::Health,
            );
            r.push(map);
            proof {
                assert(r@ =~= file_links(file_info.file_id, chunk_ids@.subrange(0, i + 1)));
            }
            volume_order = volume_order + 1;
            i = i + 1;
        }
        proof {
            assert(chunk_ids@.subrange(0, i as int) =~= chunk_ids@);
        }
        r
    }

    /// The directory with the status it gets after archiving: healthy when
    /// every listed file of the directory is healthy, otherwise failed. A
    /// directory without a row id is matched against directory id 0.
    pub fn finalize_directory(&self, directory: InfoDirectory, files: &[InfoFile]) -> (r: InfoDirectory)
        ensures
            r == (InfoDirectory { status: archived_directory_status(directory, files@), ..directory }),
    {
        let directory_id = match directory.id {
            Some(id) => id,
            None => 0,
        };
        let mut all_healthy = true;
        let mut i: usize = 0;
        while i < files.len()
            invariant
                i <= files@.len(),
                all_healthy <==> (forall|k: int|
                    0 <= k < i && #[trigger] files@[k].directory_id == directory_id
                        ==> files@[k].status == FileStatus::Health),
            decreases files@.len() - i,
        {
            if files[i].directory_id == directory_id && files[i].status != FileStatus::Health {
                all_healthy = false;
            }
            i = i + 1;
        }
        let status = if all_healthy {
            DirectoryStatus::Health
        } else {
            DirectoryStatus::ErrorArchivingFailed
        };
        InfoDirectory { status, ..directory }
    }
}

/// One piece of a file: `size` bytes starting at byte `offset`.
#[derive(Debug, Clone, Copy, PartialEq, Eq, Structural)]
pub struct FileChunk {
    pub offset: i64,
    pub size: i64,
}

/// The (offset, size) pairs of a list of chunks.
pub open spec fn chunk_ranges(chunks: Seq<FileChunk>) -> Seq<(int, int)> {
    chunks.map_values(|c: FileChunk| (c.offset as int, c.size as int))
}

pub open spec fn min_int(a: int, b: int) -> int {
    if a <= b {
        a
    } else {
        b
    }
}

/// The chunks that cover `remaining` bytes starting at `offset`: each takes as
/// many bytes as are left, but at most `limit`.
pub open spec fn chunks_from(offset: int, remaining: int, limit: int) -> Seq<(int, int)>
    decreases remaining,
{
    if remaining <= 0 || limit <= 0 {
        Seq::empty()
    } else {
        let size = min_int(remaining, limit);
        seq![(offset, size)] + chunks_from(offset + size, remaining - size, limit)
    }
}

/// How a file of `file_size` bytes is cut for volumes of at most `limit`
/// bytes: consecutive chunks from the start of the file; an empty file is one
/// empty chunk.
pub open spec fn file_chunk_plan(file_size: int, limit: int) -> Seq<(int, int)> {
    if file_size == 0 {
        seq![(0, 0)]
    } else {
        chunks_from(0, file_size, limit)
    }
}

/// The chunks that cover a range lie end to end from its start to its end;
/// none is empty or larger than the limit, and all but the last are full.
pub proof fn lemma_chunks_from_cover(offset: int, remaining: int, limit: int)
    requires
        remaining > 0,
        limit > 0,
    ensures
        ({
            let s = chunks_from(offset, remaining, limit);
            &&& s.len() > 0
            &&& s[0].0 == offset
            &&& s.last().0 + s.last().1 == offset + remaining
            &&& forall|i: int| 0 <= i < s.len() ==> 0 < (#[trigger] s[i]).1 <= limit
            &&& forall|i: int| 0 <= i < s.len() - 1 ==> (#[trigger] s[i]).1 == limit
            &&& forall|i: int| 0 <= i < s.len() - 1 ==> #[trigger] s[i + 1].0 == s[i].0 + s[i].1
        }),
    decreases remaining,
{
    let s = chunks_from(offset, remaining, limit);
    let size = min_int(remaining, limit);
    let t = chunks_from(offset + size, remaining - size, limit);
    assert(s == seq![(offset, size)] + t);
    if remaining - size > 0 {
        lemma_chunks_from_cover(offset + size, remaining - size, limit);
        assert forall|i: int| 0 <= i < s.len() implies 0 < (#[trigger] s[i]).1 <= limit by {
            if i > 0 {
                assert(s[i] == t[i - 1]);
            }
        }
        assert forall|i: int| 0 <= i < s.len() - 1 implies (#[trigger] s[i]).1 == limit by {
            if i > 0 {
                assert(s[i] == t[i - 1]);
            }
        }
        assert forall|i: int| 0 <= i < s.len() - 1 implies #[trigger] s[i + 1].0 == s[i].0
            + s[i].1 by {
            assert(s[i + 1] == t[i]);
            if i > 0 {
                assert(s[i] == t[i - 1]);
                assert(t[(i - 1) + 1].0 == t[i - 1].0 + t[i - 1].1);
            } else {
                assert(s[0] == (offset, size));
            }
        }
    } else {
        assert(t.len() == 0);
        assert(s.len() == 1);
    }
}

/// Volume splitting: the chunks of a non-empty file lie end to end from byte
/// 0 to its last byte, each holds between 1 and `limit` bytes, and all but the
/// last hold exactly `limit` bytes, so reading them in order gives the file
/// back.
pub proof fn lemma_file_chunk_plan_covers_file(file_size: int, limit: int)
    requires
        file_size > 0,
        limit > 0,
    ensures
        ({
            let s = file_chunk_plan(file_size, limit);
            &&& s.len() > 0
            &&& s[0].0 == 0
            &&& s.last().0 + s.last().1 == file_size
            &&& forall|i: int| 0 <= i < s.len() ==> 0 < (#[trigger] s[i]).1 <= limit
            &&& forall|i: int| 0 <= i < s.len() - 1 ==> (#[trigger] s[i]).1 == limit
            &&& forall|i: int| 0 <= i < s.len() - 1 ==> #[trigger] s[i + 1].0 == s[i].0 + s[i].1
        }),
{
    lemma_chunks_from_cover(0, file_size, limit);
}

/// What to do with one chunk of a file being archived.
#[derive(Debug, Clone)]
pub enum ChunkPlan {
    /// A chunk with the same content is stored already: link to it.
    Reuse(i64),
    /// Write this new chunk into the open volume, then store its record.
    Create(ArchiveChunk),
}

/// Where the chunks of a file being archived come from.
#[derive(Debug, Clone, Copy, PartialEq, Eq, Structural)]
pub enum FileContentPlan {
    /// A healthy file with the same content is archived already: take the
    /// chunks of the file with this id; nothing new is written.
    ReuseFile(i64),
    /// The content is new: cut the file into chunks and store them.
    ArchiveNew,
}

/// Decisions taken while a file is archived.
#[derive(Debug, Clone, Copy)]
pub struct FileProcessingStrategy;

impl FileProcessingStrategy {
    /// Cuts a file of `file_size` bytes into chunks for volumes of at most
    /// `archive_limit_size` bytes (see `file_chunk_plan`); a file with a
    /// negative size has no chunks.
    pub fn plan_file_chunks(file_size: i64, archive_limit_size: i64) -> (r: Vec<FileChunk>)
        requires
            file_size > 0 ==> archive_limit_size > 0,
        ensures
            chunk_ranges(r@) == file_chunk_plan(file_size as int, archive_limit_size as int),
    {
        let mut r: Vec<FileChunk> = Vec::new();
        if file_size == 0 {
            r.push(FileChunk { offset: 0, size: 0 });
            proof {
                assert(chunk_ranges(r@) =~= seq![(0int, 0int)]);
            }
            return r;
        }
        let mut offset: i64 = 0;
        let mut remaining: i64 = file_size;
        while remaining > 0
            invariant
                file_size != 0,
                file_size > 0 ==> archive_limit_size > 0,
                0 <= offset,
                offset + remaining == file_size,
                chunk_ranges(r@) + chunks_from(offset as int, remaining as int, archive_limit_size as int)
                    =~= chunks_from(0, file_size as int, archive_limit_size as int),
            decreases remaining,
        {
            let size = if remaining < archive_limit_size {
                remaining
            } else {
                archive_limit_size
            };
            let ghost before = chunk_ranges(r@);
            r.push(FileChunk { offset, size });
            proof {
                assert(chunk_ranges(r@) =~= before.push((offset as int, size as int)));
                let rest = chunks_from(offset + size, remaining - size, archive_limit_size as int);
                assert(chunks_from(offset as int, remaining as int, archive_limit_size as int)
                    == seq![(offset as int, size as int)] + rest);
                assert(before.push((offset as int, size as int)) + rest =~= before + (seq![
                    (offset as int, size as int),
                ] + rest));
            }
            offset = offset + size;
            remaining = remaining - size;
        }
        proof {
            assert(chunks_from(offset as int, remaining as int, archive_limit_size as int)
                =~= Seq::<(int, int)>::empty());
            assert(chunk_ranges(r@) + Seq::<(int, int)>::empty() =~= chunk_ranges(r@));
        }
        r
    }

    /// Decides how to store a chunk whose content hash is `hash`: when the
    /// index already holds a chunk with this hash (`existing`), link to it;
    /// otherwise create a chunk in the open volume named by the hash, sized
    /// `chunk_len`, dated `file_mtime`, waiting to be archived.
    pub fn plan_chunk(
        existing: Option<ArchiveChunk>,
        current_archive_id: Option<i64>,
        hash: String,
        chunk_len: usize,
        file_mtime: i64,
    ) -> (r: ChunkPlan)
        requires
            existing matches Some(c) ==> c.id is Some,
            existing is None ==> current_archive_id is Some,
        ensures
            existing matches Some(c) ==> r == ChunkPlan::Reuse(c.id.unwrap()),
            existing is None ==> (r matches ChunkPlan::Create(c) && c == (ArchiveChunk {
                id: None,
                archive_id: current_archive_id.unwrap(),
                chunk_name: hash,
                chunk_size: chunk_len as i64,
                chunk_hash: hash,
                chunk_mtime: file_mtime,
                chunk_relative_path: hash,
                status: ChunkStatus::WaitToArchive,
                created_at: None,
                updated_at: None,
            })),
    {
        match existing {
            Some(chunk) => {
                match chunk.id {
                    Some(id) => ChunkPlan::Reuse(id),
                    None => {
                        proof {
                            assert(false);
                        }
                        ChunkPlan::Reuse(0)
                    },
                }
            },
            None => {
                let archive_id = match current_archive_id {
                    Some(id) => id,
                    None => {
                        proof {
                            assert(false);
                        }
                        0
                    },
                };
                ChunkPlan::Create(
                    ArchiveChunk::new(
                        archive_id,
                        hash.clone(),
                        chunk_len as i64,
                        hash.clone(),
                        file_mtime,
                        hash,
                        ChunkStatus::WaitToArchive,
                    ),
                )
            },
        }
    }

    /// The chunk record once its data was written into the volume: healthy.
    pub fn chunk_written(chunk: ArchiveChunk) -> (r: ArchiveChunk)
        ensures
            r == (ArchiveChunk { status: ChunkStatus::Health, ..chunk }),
    {
        ArchiveChunk { status: ChunkStatus::Health, ..chunk }
    }

    /// Decides how a file is archived from the healthy files found with the
    /// same content hash: when there is one, the file takes the chunks of the
    /// first of them; otherwise its content is archived anew.
    pub fn plan_file_content(health_file_list: &[ViewFile]) -> (r: FileContentPlan)
        ensures
            health_file_list@.len() == 0 ==> r == FileContentPlan::ArchiveNew,
            health_file_list@.len() > 0 ==> r == FileContentPlan::ReuseFile(health_file_list@[0].file_id),
    {
        match Self::first_matching_file_id(health_file_list) {
            Ok(file_id) => FileContentPlan::ReuseFile(file_id),
            Err(_) => FileContentPlan::ArchiveNew,
        }
    }

    /// The file whose chunks a file with the same content reuses: the first
    /// healthy file found with that hash; none is an error.
    pub fn first_matching_file_id(file_by_hash_list: &[ViewFile]) -> (r: Result<i64, ArchiveError>)
        ensures
            file_by_hash_list@.len() == 0 ==> r == Err::<i64, ArchiveError>(
                ArchiveError::NoMatchingFileId,
            ),
            file_by_hash_list@.len() > 0 ==> r == Ok::<i64, ArchiveError>(
                file_by_hash_list@[0].file_id,
            ),
    {
        if file_by_hash_list.len() == 0 {
            Err(ArchiveError::NoMatchingFileId)
        } else {
            Ok(file_by_hash_list[0].file_id)
        }
    }

    /// The chunk ids of a file's links, in the order given.
    pub fn chunk_ids_of(map_file_chunk_list: &[MapFileChunk]) -> (r: Vec<i64>)
        ensures
            r@ == link_chunk_ids(map_file_chunk_list@),
    {
        let mut r: Vec<i64> = Vec::new();
        let mut i: usize = 0;
        while i < map_file_chunk_list.len()
            invariant
                i <= map_file_chunk_list@.len(),
                r@ == link_chunk_ids(map_file_chunk_list@.subrange(0, i as int)),
            decreases map_file_chunk_list@.len() - i,
        {
            r.push(map_file_chunk_list[i].chunk_id);
            proof {
                assert(r@ =~= link_chunk_ids(map_file_chunk_list@.subrange(0, i + 1)));
            }
            i = i + 1;
        }
        proof {
            assert(map_file_chunk_list@.subrange(0, i as int) =~= map_file_chunk_list@);
        }
        r
    }
}

/// Reading back the links written for a file gives its chunks back: taken
/// in volume order (which increases from 1), the links name exactly the
/// chunk ids they were made from, in their order. This is how a file with
/// the same content as an archived one is given that file's chunks.
pub proof fn lemma_links_read_back(file_id: i64, chunk_ids: Seq<i64>)
    requires
        chunk_ids.len() < i32::MAX,
    ensures
        link_chunk_ids(file_links(file_id, chunk_ids)) == chunk_ids,
        forall|i: int, j: int|
            0 <= i < j < chunk_ids.len() ==> (#[trigger] file_links(file_id, chunk_ids)[i]).volume_order
                < (#[trigger] file_links(file_id, chunk_ids)[j]).volume_order,
{
    assert(link_chunk_ids(file_links(file_id, chunk_ids)) =~= chunk_ids);
}

} // verus!
