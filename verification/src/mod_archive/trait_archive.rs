//! The state of an archiving run: which volume is open and how full it is.
use vstd::prelude::*;
pub use super::utils_archive::ArchiveProgress;

verus! {

/// Space reserved for the tar header of the next entry.
pub const TAR_HEADER_SIZE: i64 = 512;

/// The state of an archiving run. The tar writer of the open volume is kept
/// by the caller beside this record.
#[derive(Debug, Clone)]
pub struct ArchiveContext {
    pub archive_file_prefix: String,
    pub archive_directory: String,
    /// Upper bound on the size of one volume, in bytes.
    pub archive_limit_size: i64,
    /// Number of the next volume, starting at 1.
    pub archive_counter: i64,
    pub current_archive_file_path: Option<String>,
    pub current_archive_size: i64,
    pub current_archive_id: Option<i64>,
}

impl ArchiveContext {
    /// Whether the open volume cannot take another entry: no volume is open,
    /// or its size plus one tar header reaches the limit.
    pub open spec fn spec_need_new_archive(self) -> bool {
        self.current_archive_id is None
            || self.current_archive_size + TAR_HEADER_SIZE >= self.archive_limit_size
    }

    /// A run that has no volume open yet; volumes are numbered from 1.
    pub fn new(archive_file_prefix: String, archive_directory: String, archive_limit_size: i64) -> (r:
        Self)
        ensures
            r.archive_file_prefix == archive_file_prefix,
            r.archive_directory == archive_directory,
            r.archive_limit_size == archive_limit_size,
            r.archive_counter == 1,
            r.current_archive_file_path is None,
            r.current_archive_size == 0,
            r.current_archive_id is None,
    {
        ArchiveContext {
            archive_file_prefix,
            archive_directory,
            archive_limit_size,
            archive_counter: 1,
            current_archive_file_path: None,
            current_archive_size: 0,
            current_archive_id: None,
        }
    }

    /// Forgets the open volume.
    pub fn reset_current(&mut self)
        ensures
            final(self).archive_file_prefix == old(self).archive_file_prefix,
            final(self).archive_directory == old(self).archive_directory,
            final(self).archive_limit_size == old(self).archive_limit_size,
            final(self).archive_counter == old(self).archive_counter,
            final(self).current_archive_file_path is None,
            final(self).current_archive_size == 0,
            final(self).current_archive_id is None,
    {
        self.current_archive_file_path = None;
        self.current_archive_size = 0;
        self.current_archive_id = None;
    }

    /// Whether a new volume must be opened before the next entry is written.
    pub fn need_new_archive(&self) -> (r: bool)
        requires
            self.current_archive_id is Some ==> self.current_archive_size + TAR_HEADER_SIZE
                <= i64::MAX,
        ensures
            r == self.spec_need_new_archive(),
    {
        self.current_archive_id.is_none()
            || self.current_archive_size + TAR_HEADER_SIZE >= self.archive_limit_size
    }

    /// Records that a new, empty volume was opened: its database id and file
    /// path become current and the volume counter moves on by one.
    pub fn start_new_archive(&mut self, archive_id: i64, archive_file_path: String)
        requires
            old(self).archive_counter < i64::MAX,
        ensures
            final(self).archive_file_prefix == old(self).archive_file_prefix,
            final(self).archive_directory == old(self).archive_directory,
            final(self).archive_limit_size == old(self).archive_limit_size,
            final(self).archive_counter == old(self).archive_counter + 1,
            final(self).current_archive_file_path == Some(archive_file_path),
            final(self).current_archive_size == 0,
            final(self).current_archive_id == Some(archive_id),
    {
        self.reset_current();
        self.current_archive_id = Some(archive_id);
        self.current_archive_file_path = Some(archive_file_path);
        self.archive_counter = self.archive_counter + 1;
    }
}

/// When a new volume is needed: always when none is open; with a volume
/// open, exactly when its size plus one tar header reaches the limit, at any
/// size, so an entry is never written into a volume that is already full.
pub proof fn lemma_need_new_archive_when_full(ctx: ArchiveContext)
    ensures
        ctx.current_archive_id is None ==> ctx.spec_need_new_archive(),
        ctx.current_archive_id is Some && ctx.current_archive_size + TAR_HEADER_SIZE >= ctx.archive_limit_size
            ==> ctx.spec_need_new_archive(),
        ctx.current_archive_id is Some && ctx.current_archive_size + TAR_HEADER_SIZE < ctx.archive_limit_size
            ==> !ctx.spec_need_new_archive(),
{
}

/// After the open volume is forgotten a new one is always needed; a freshly
/// opened volume takes entries as long as the limit leaves room for more than
/// one tar header.
pub proof fn lemma_volume_rollover(ctx: ArchiveContext, archive_id: i64, path: String)
    ensures
        (ArchiveContext {
            current_archive_file_path: None,
            current_archive_size: 0,
            current_archive_id: None,
            ..ctx
        }).spec_need_new_archive(),
        (ArchiveContext {
            current_archive_file_path: Some(path),
            current_archive_size: 0,
            current_archive_id: Some(archive_id),
            ..ctx
        }).spec_need_new_archive() <==> ctx.archive_limit_size <= TAR_HEADER_SIZE,
{
}

} // verus!
