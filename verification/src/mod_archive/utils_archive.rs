//! Helpers used while archiving: progress records, progress events and the
//! names of archive volumes.
use vstd::prelude::*;
use crate::text::{decimal, push_decimal};
use crate::utils::{is_compact_utc_text_of, create_progress_event, timestamp_text_now, EventType, ProgressEvent};

verus! {

/// Progress of an archiving task.
#[derive(Debug, Clone)]
pub struct ArchiveProgress {
    pub total_files: usize,
    pub processed_files: usize,
    pub processed_bytes: u64,
    pub total_bytes: u64,
    /// The file being archived now.
    pub current_file: Option<String>,
    pub completed: bool,
    pub error: Option<String>,
}

fn copy_text(o: &Option<String>) -> (r: Option<String>)
    ensures
        r == *o,
{
    match o {
        Some(s) => Some(s.clone()),
        None => None,
    }
}

impl ArchiveProgress {
    /// A copy of this progress record.
    pub fn snapshot(&self) -> (r: ArchiveProgress)
        ensures
            r == *self,
    {
        ArchiveProgress {
            total_files: self.total_files,
            processed_files: self.processed_files,
            processed_bytes: self.processed_bytes,
            total_bytes: self.total_bytes,
            current_file: copy_text(&self.current_file),
            completed: self.completed,
            error: copy_text(&self.error),
        }
    }
}

impl ArchiveProgress {
    /// Records the file that is being archived now.
    pub fn start_file(&mut self, file_name: String)
        ensures
            *final(self) == (ArchiveProgress { current_file: Some(file_name), ..*old(self) }),
    {
        self.current_file = Some(file_name);
    }

    /// Records that one more file, of `file_size` bytes, was archived.
    pub fn finish_file(&mut self, file_size: i64)
        requires
            old(self).processed_files < usize::MAX,
            old(self).processed_bytes + (file_size as u64) <= u64::MAX,
        ensures
            *final(self) == (ArchiveProgress {
                processed_files: (old(self).processed_files + 1) as usize,
                processed_bytes: (old(self).processed_bytes + (file_size as u64)) as u64,
                ..*old(self)
            }),
    {
        self.processed_files = self.processed_files + 1;
        self.processed_bytes = self.processed_bytes + file_size as u64;
    }

    /// Records that the task has ended.
    pub fn complete(&mut self)
        ensures
            *final(self) == (ArchiveProgress { completed: true, ..*old(self) }),
    {
        self.completed = true;
    }
}

/// The message reporting `processed` of `total` files archived:
/// `已完成 {processed}/{total} 个文件的归档`.
pub fn files_archived_message(processed: usize, total: usize) -> (r: String)
    ensures
        r@ == "已完成 "@ + decimal(processed as nat) + "/"@ + decimal(total as nat) + " 个文件的归档"@,
{
    let mut r = "已完成 ".to_owned();
    push_decimal(&mut r, processed as u64);
    r.append("/");
    push_decimal(&mut r, total as u64);
    r.append(" 个文件的归档");
    r
}

/// The progress event of the `archive` task that carries a copy of
/// `progress` and the given message; the caller hands it to the listener.
pub fn update_archive_progress(
    progress: &ArchiveProgress,
    message: &str,
    event_type: EventType,
) -> (r: ProgressEvent<ArchiveProgress>)
    ensures
        r.event_type == event_type,
        r.operation@ == "archive"@,
        r.data == *progress,
        r.message matches Some(m) && m@ == message@,
{
    create_progress_event(event_type, "archive", progress.snapshot(), Some(message.to_owned()))
}

/// The file name of an archive volume: `{prefix}_{timestamp}_{counter}.tar`.
pub open spec fn spec_archive_file_name(
    prefix: Seq<char>,
    timestamp: Seq<char>,
    counter: nat,
) -> Seq<char> {
    prefix + "_"@ + timestamp + "_"@ + decimal(counter) + ".tar"@
}

/// Builds the file name of an archive volume from its prefix, a timestamp
/// and the volume counter.
pub fn archive_file_name(prefix: &str, timestamp: &str, counter: u32) -> (r: String)
    ensures
        r@ == spec_archive_file_name(prefix@, timestamp@, counter as nat),
{
    let mut r = prefix.to_owned();
    r.append("_");
    r.append(timestamp);
    r.append("_");
    push_decimal(&mut r, counter as u64);
    r.append(".tar");
    r
}

/// The file name for a new archive volume, stamped with the current UTC time
/// (`%Y%m%d%H%M%S`); `None` when the system clock cannot be read as a time
/// after the Unix epoch or written as a date.
pub fn new_archive_file_name(archive_file_prefix: &str, archive_counter: u32) -> (r: Option<String>)
    ensures
        r matches Some(n) ==> exists|timestamp: Seq<char>, secs: int|
            is_compact_utc_text_of(timestamp, secs) && n@ == spec_archive_file_name(
                archive_file_prefix@,
                timestamp,
                archive_counter as nat,
            ),
{
    match timestamp_text_now() {
        Some(timestamp) => {
            let n = archive_file_name(archive_file_prefix, timestamp.as_str(), archive_counter);
            proof {
                let secs = choose|secs: int| is_compact_utc_text_of(timestamp@, secs);
                assert(is_compact_utc_text_of(timestamp@, secs));
            }
            Some(n)
        },
        None => None,
    }
}

} // verus!
