//! The decisions of a batch transfer: many independent files fetched under
//! one bound on concurrency, where a file that is already in place and
//! valid is skipped.
//!
//! The batch is best effort: a file that fails does not fail the batch, and
//! the caller learns of the batch's end, not of single files.

use vstd::prelude::*;

use crate::integrity::{checksum_ok, verify_checksum};
use crate::progress::{
    progress_event, GlobalProgress, ProgressEvent, ProgressEventView, ProgressSnapshot,
    TransferStatus,
};
use crate::text::{as_text, clone_text};

verus! {

/// The least number of files fetched at once.
pub const MIN_CONCURRENT: usize = 1;

/// The most files fetched at once.
pub const MAX_CONCURRENT: usize = 128;

/// One file to fetch: where from, where to, and the hashes it declares.
#[derive(Debug)]
pub struct DownloadTask {
    pub url: String,
    pub path: String,
    pub sha1: Option<String>,
    pub sha256: Option<String>,
}

/// The mathematical content of a `DownloadTask`.
pub struct TaskView {
    pub url: Seq<char>,
    pub path: Seq<char>,
    pub sha1: Option<Seq<char>>,
    pub sha256: Option<Seq<char>>,
}

impl View for DownloadTask {
    type V = TaskView;

    open spec fn view(&self) -> TaskView {
        TaskView {
            url: self.url@,
            path: self.path@,
            sha1: match self.sha1 {
                Some(h) => Some(h@),
                None => None,
            },
            sha256: match self.sha256 {
                Some(h) => Some(h@),
                None => None,
            },
        }
    }
}

impl Clone for DownloadTask {
    fn clone(&self) -> (copy: Self)
        ensures
            copy@ == self@,
    {
        DownloadTask {
            url: self.url.clone(),
            path: self.path.clone(),
            sha1: clone_text(&self.sha1),
            sha256: clone_text(&self.sha256),
        }
    }
}

impl TaskView {
    /// The task declares at least one hash.
    pub open spec fn has_expectation(self) -> bool {
        self.sha256 is Some || self.sha1 is Some
    }

    /// The destination, holding `existing`, needs no transfer: the task
    /// declares a hash and the content passes the check against it.
    pub open spec fn satisfied_by(self, existing: Option<Seq<u8>>) -> bool {
        existing is Some && self.has_expectation() && checksum_ok(
            existing->0,
            self.sha256,
            self.sha1,
        )
    }
}

/// The number of files fetched at once for a requested `max_concurrent`:
/// the request, kept within 1 and 128.
pub fn clamp_concurrency(max_concurrent: usize) -> (limit: usize)
    ensures
        MIN_CONCURRENT <= limit <= MAX_CONCURRENT,
        MIN_CONCURRENT <= max_concurrent <= MAX_CONCURRENT ==> limit == max_concurrent,
        max_concurrent < MIN_CONCURRENT ==> limit == MIN_CONCURRENT,
        max_concurrent > MAX_CONCURRENT ==> limit == MAX_CONCURRENT,
{
    if max_concurrent < MIN_CONCURRENT {
        MIN_CONCURRENT
    } else if max_concurrent > MAX_CONCURRENT {
        MAX_CONCURRENT
    } else {
        max_concurrent
    }
}

/// What to do for one file of a batch.
#[derive(Clone, Copy, Debug, PartialEq, Eq, Structural)]
pub enum TaskPlan {
    /// The destination is already valid: make no request.
    Skip,
    /// Fetch the file and write it to the destination.
    Fetch,
}

impl DownloadTask {
    /// Whether the task declares at least one hash.
    pub fn has_expectation(&self) -> (declared: bool)
        ensures
            declared == self@.has_expectation(),
    {
        self.sha256.is_some() || self.sha1.is_some()
    }

    /// Decides between skipping and fetching. `existing` is the content of
    /// the destination, or `None` where there is no destination or it
    /// cannot be read. The file is skipped exactly when the destination
    /// exists, the task declares a hash, and the content passes the check;
    /// a task without any hash is always fetched.
    pub fn plan(&self, existing: Option<&[u8]>) -> (plan: TaskPlan)
        ensures
            plan == if self@.satisfied_by(
                match existing {
                    Some(data) => Some(data@),
                    None => None,
                },
            ) {
                TaskPlan::Skip
            } else {
                TaskPlan::Fetch
            },
    {
        match existing {
            Some(data) => {
                if self.has_expectation() && verify_checksum(
                    data,
                    as_text(&self.sha256),
                    as_text(&self.sha1),
                ) {
                    TaskPlan::Skip
                } else {
                    TaskPlan::Fetch
                }
            },
            None => TaskPlan::Fetch,
        }
    }
}

/// The event sent when an existing destination is about to be checked.
pub fn verifying_event(progress: &GlobalProgress, file_name: &str) -> (event: ProgressEvent)
    ensures
        event@ == event_of(file_name@, TransferStatus::Verifying, 0, 0, progress@),
{
    progress_event(file_name, TransferStatus::Verifying.label(), 0, 0, &progress.snapshot())
}

/// The event for a file of a batch.
pub open spec fn event_of(
    file_name: Seq<char>,
    status: TransferStatus,
    downloaded: u64,
    total: u64,
    snapshot: ProgressSnapshot,
) -> ProgressEventView {
    ProgressEventView {
        file: file_name,
        downloaded,
        total,
        status: status.label_of(),
        completed_files: snapshot.completed_files,
        total_files: snapshot.total_files,
        total_downloaded_bytes: snapshot.total_downloaded_bytes,
    }
}

/// The counters after a file of `size` bytes was skipped: its size is
/// credited and it counts as completed.
pub open spec fn after_skip(before: ProgressSnapshot, size: u64) -> ProgressSnapshot {
    ProgressSnapshot {
        completed_files: before.completed_files.wrapping_add(1),
        total_downloaded_bytes: before.total_downloaded_bytes.wrapping_add(size),
        ..before
    }
}

/// Records a skipped file: credits the size of the existing file to the
/// bytes of the batch, counts the file as completed, and gives the
/// `Skipped` event.
pub fn record_skipped(progress: &mut GlobalProgress, file_name: &str, existing_size: u64) -> (event:
    ProgressEvent)
    ensures
        final(progress)@ == after_skip(old(progress)@, existing_size),
        event@ == event_of(file_name@, TransferStatus::Skipped, 0, 0, final(progress)@),
{
    if existing_size > 0 {
        let _ = progress.add_bytes(existing_size);
    }
    let snapshot = progress.inc_completed();
    progress_event(file_name, TransferStatus::Skipped.label(), 0, 0, &snapshot)
}

/// Records a chunk of `len` bytes written for a file of which `so_far`
/// bytes were written before: adds it to the bytes of the batch and gives
/// the `Downloading` event with the file's new count. The counts wrap
/// around at the largest `u64`.
pub fn record_chunk(
    progress: &mut GlobalProgress,
    file_name: &str,
    so_far: u64,
    len: u64,
    total_size: u64,
) -> (result: (u64, ProgressEvent))
    ensures
        result.0 == so_far.wrapping_add(len),
        final(progress)@ == (ProgressSnapshot {
            total_downloaded_bytes: old(progress)@.total_downloaded_bytes.wrapping_add(len),
            ..old(progress)@
        }),
        result.1@ == event_of(
            file_name@,
            TransferStatus::Downloading,
            result.0,
            total_size,
            final(progress)@,
        ),
{
    let downloaded = so_far.wrapping_add(len);
    let snapshot = progress.add_bytes(len);
    let event = progress_event(
        file_name,
        TransferStatus::Downloading.label(),
        downloaded,
        total_size,
        &snapshot,
    );
    (downloaded, event)
}

/// Records a file that was fetched to its end: counts it as completed
/// and gives the `Finished` event.
pub fn record_finished(progress: &mut GlobalProgress, file_name: &str) -> (event: ProgressEvent)
    ensures
        final(progress)@ == (ProgressSnapshot {
            completed_files: old(progress)@.completed_files.wrapping_add(1),
            ..old(progress)@
        }),
        event@ == event_of(file_name@, TransferStatus::Finished, 0, 0, final(progress)@),
{
    let snapshot = progress.inc_completed();
    progress_event(file_name, TransferStatus::Finished.label(), 0, 0, &snapshot)
}

/// How one file of a batch ended.
#[derive(Clone, Copy, Debug, PartialEq, Eq, Structural)]
pub enum TaskOutcome {
    Skipped,
    Finished,
    Failed,
}

/// The result of a batch once every file has settled. The batch is best
/// effort: it succeeds however many of its files failed.
pub fn batch_result(outcomes: &[TaskOutcome]) -> (result: Result<(), String>)
    ensures
        result is Ok,
{
    Ok(())
}

/// The number of files of a batch that failed.
pub open spec fn failed_count(outcomes: Seq<TaskOutcome>) -> nat
    decreases outcomes.len(),
{
    if outcomes.len() == 0 {
        0
    } else if outcomes.last() == TaskOutcome::Failed {
        failed_count(outcomes.drop_last()) + 1
    } else {
        failed_count(outcomes.drop_last())
    }
}

/// Counts the files of a batch that failed, for a caller that wants to
/// know what the batch's result does not say.
pub fn count_failed(outcomes: &[TaskOutcome]) -> (failed: usize)
    ensures
        failed == failed_count(outcomes@),
{
    let mut failed: usize = 0;
    let mut i: usize = 0;
    while i < outcomes.len()
        invariant
            i <= outcomes@.len(),
            failed == failed_count(outcomes@.take(i as int)),
            failed <= i,
        decreases outcomes@.len() - i,
    {
        assert(outcomes@.take(i + 1).drop_last() =~= outcomes@.take(i as int));
        if outcomes[i] == TaskOutcome::Failed {
            failed += 1;
        }
        i += 1;
    }
    assert(outcomes@.take(outcomes@.len() as int) =~= outcomes@);
    failed
}

} // verus!
