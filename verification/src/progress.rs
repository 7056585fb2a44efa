//! Progress of transfers: the counters of a batch, the pace of the reports
//! of a large transfer, and the events sent to the presentation layer.

use vstd::prelude::*;

verus! {

/// The stage that a progress event reports.
#[derive(Clone, Copy, Debug, PartialEq, Eq, Structural)]
pub enum TransferStatus {
    Downloading,
    Verifying,
    Skipped,
    Finished,
    Extracting,
    Completed,
    Paused,
    Error,
}

impl TransferStatus {
    /// The name of the stage as it stands in an event.
    pub open spec fn label_of(self) -> Seq<char> {
        match self {
            TransferStatus::Downloading => "Downloading"@,
            TransferStatus::Verifying => "Verifying"@,
            TransferStatus::Skipped => "Skipped"@,
            TransferStatus::Finished => "Finished"@,
            TransferStatus::Extracting => "Extracting"@,
            TransferStatus::Completed => "Completed"@,
            TransferStatus::Paused => "Paused"@,
            TransferStatus::Error => "Error"@,
        }
    }

    /// The name of the stage as it stands in an event.
    pub fn label(&self) -> (name: &'static str)
        ensures
            name@ == self.label_of(),
    {
        match self {
            TransferStatus::Downloading => "Downloading",
            TransferStatus::Verifying => "Verifying",
            TransferStatus::Skipped => "Skipped",
            TransferStatus::Finished => "Finished",
            TransferStatus::Extracting => "Extracting",
            TransferStatus::Completed => "Completed",
            TransferStatus::Paused => "Paused",
            TransferStatus::Error => "Error",
        }
    }
}

/// The counters of a batch at one moment.
#[derive(Clone, Copy, Debug, PartialEq, Eq, Structural)]
pub struct ProgressSnapshot {
    pub completed_files: usize,
    pub total_files: usize,
    pub total_downloaded_bytes: u64,
}

/// The counters of one batch. Each batch owns its own; the caller that
/// shares them among workers gives each change exclusive access.
#[derive(Debug)]
pub struct GlobalProgress {
    completed_files: usize,
    total_downloaded_bytes: u64,
    total_files: usize,
}

impl View for GlobalProgress {
    type V = ProgressSnapshot;

    closed spec fn view(&self) -> ProgressSnapshot {
        ProgressSnapshot {
            completed_files: self.completed_files,
            total_files: self.total_files,
            total_downloaded_bytes: self.total_downloaded_bytes,
        }
    }
}

impl GlobalProgress {
    /// The counters of a batch of `total_files` files, none completed and
    /// nothing transferred.
    pub fn new(total_files: usize) -> (progress: Self)
        ensures
            progress@ == (ProgressSnapshot {
                completed_files: 0,
                total_files,
                total_downloaded_bytes: 0,
            }),
    {
        Self { completed_files: 0, total_downloaded_bytes: 0, total_files }
    }

    /// The counters as they stand.
    pub fn snapshot(&self) -> (snapshot: ProgressSnapshot)
        ensures
            snapshot == self@,
    {
        ProgressSnapshot {
            completed_files: self.completed_files,
            total_files: self.total_files,
            total_downloaded_bytes: self.total_downloaded_bytes,
        }
    }

    /// Counts one more completed file and returns the counters after it.
    /// The count wraps around at the largest `usize`.
    pub fn inc_completed(&mut self) -> (snapshot: ProgressSnapshot)
        ensures
            final(self)@ == (ProgressSnapshot {
                completed_files: old(self)@.completed_files.wrapping_add(1),
                ..old(self)@
            }),
            snapshot == final(self)@,
            old(self)@.completed_files < usize::MAX ==> snapshot.completed_files == old(
                self,
            )@.completed_files + 1,
    {
        self.completed_files = self.completed_files.wrapping_add(1);
        self.snapshot()
    }

    /// Adds `delta` transferred bytes and returns the counters after it.
    /// The sum wraps around at the largest `u64`.
    pub fn add_bytes(&mut self, delta: u64) -> (snapshot: ProgressSnapshot)
        ensures
            final(self)@ == (ProgressSnapshot {
                total_downloaded_bytes: old(self)@.total_downloaded_bytes.wrapping_add(delta),
                ..old(self)@
            }),
            snapshot == final(self)@,
            old(self)@.total_downloaded_bytes + delta <= u64::MAX
                ==> snapshot.total_downloaded_bytes == old(self)@.total_downloaded_bytes + delta,
    {
        self.total_downloaded_bytes = self.total_downloaded_bytes.wrapping_add(delta);
        self.snapshot()
    }
}

/// A progress event of a batch transfer.
#[derive(Debug)]
pub struct ProgressEvent {
    pub file: String,
    pub downloaded: u64,
    pub total: u64,
    pub status: String,
    pub completed_files: usize,
    pub total_files: usize,
    pub total_downloaded_bytes: u64,
}

/// The mathematical content of a `ProgressEvent`.
pub struct ProgressEventView {
    pub file: Seq<char>,
    pub downloaded: u64,
    pub total: u64,
    pub status: Seq<char>,
    pub completed_files: usize,
    pub total_files: usize,
    pub total_downloaded_bytes: u64,
}

impl View for ProgressEvent {
    type V = ProgressEventView;

    open spec fn view(&self) -> ProgressEventView {
        ProgressEventView {
            file: self.file@,
            downloaded: self.downloaded,
            total: self.total,
            status: self.status@,
            completed_files: self.completed_files,
            total_files: self.total_files,
            total_downloaded_bytes: self.total_downloaded_bytes,
        }
    }
}

impl Clone for ProgressEvent {
    fn clone(&self) -> (copy: Self)
        ensures
            copy@ == self@,
    {
        ProgressEvent {
            file: self.file.clone(),
            downloaded: self.downloaded,
            total: self.total,
            status: self.status.clone(),
            completed_files: self.completed_files,
            total_files: self.total_files,
            total_downloaded_bytes: self.total_downloaded_bytes,
        }
    }
}

/// The event that reports `status` for the file `file_name`, with the
/// file's own byte counts and the counters of its batch.
pub fn progress_event(
    file_name: &str,
    status: &str,
    downloaded: u64,
    total: u64,
    snapshot: &ProgressSnapshot,
) -> (event: ProgressEvent)
    ensures
        event@ == (ProgressEventView {
            file: file_name@,
            downloaded,
            total,
            status: status@,
            completed_files: snapshot.completed_files,
            total_files: snapshot.total_files,
            total_downloaded_bytes: snapshot.total_downloaded_bytes,
        }),
{
    ProgressEvent {
        file: file_name.to_string(),
        downloaded,
        total,
        status: status.to_string(),
        completed_files: snapshot.completed_files,
        total_files: snapshot.total_files,
        total_downloaded_bytes: snapshot.total_downloaded_bytes,
    }
}

/// A progress report of a large transfer is due once this many bytes have
/// arrived since the last one.
pub const REPORT_STEP: u64 = 100 * 1024;

/// Whether a report is due with `downloaded` bytes fetched, the last
/// report made at `last_reported`, for a file of `total_size` bytes: more
/// than the step has arrived since, or the file is complete.
pub open spec fn report_due(downloaded: u64, last_reported: u64, total_size: u64) -> bool {
    downloaded.wrapping_sub(last_reported) > REPORT_STEP || downloaded >= total_size
}

/// The byte counter of one large transfer, shared by its segment workers,
/// and the pace of its reports.
#[derive(Clone, Copy, Debug, PartialEq, Eq, Structural)]
pub struct TransferProgress {
    /// Bytes fetched so far, over all segments and all attempts.
    pub downloaded: u64,
    /// The value of `downloaded` at the last report.
    pub last_reported: u64,
    /// The size of the file.
    pub total_size: u64,
}

impl TransferProgress {
    /// The counter of a transfer that has fetched `already` bytes in
    /// earlier attempts.
    pub fn new(already: u64, total_size: u64) -> (progress: Self)
        ensures
            progress == (TransferProgress { downloaded: already, last_reported: already, total_size }),
    {
        TransferProgress { downloaded: already, last_reported: already, total_size }
    }

    /// Counts a chunk of `len` bytes and says whether a report is due. The
    /// count wraps around at the largest `u64`. Where a report is due, it
    /// is taken as made.
    pub fn record_chunk(&mut self, len: u64) -> (due: bool)
        ensures
            final(self).downloaded == old(self).downloaded.wrapping_add(len),
            final(self).total_size == old(self).total_size,
            due == report_due(final(self).downloaded, old(self).last_reported, old(self).total_size),
            final(self).last_reported == if due {
                final(self).downloaded
            } else {
                old(self).last_reported
            },
    {
        self.downloaded = self.downloaded.wrapping_add(len);
        let due = self.downloaded.wrapping_sub(self.last_reported) > REPORT_STEP || self.downloaded
            >= self.total_size;
        if due {
            self.last_reported = self.downloaded;
        }
        due
    }
}

/// The seconds a transfer still needs at `speed` bytes per second; zero
/// where the speed is unknown.
pub open spec fn eta_of(downloaded: u64, total_size: u64, speed: u64) -> int {
    if speed == 0 {
        0
    } else if downloaded >= total_size {
        0
    } else {
        (total_size - downloaded) / speed as int
    }
}

/// A progress event of a large transfer. The presentation layer adds the
/// percentage.
#[derive(Debug)]
pub struct JavaDownloadProgress {
    pub file_name: String,
    pub downloaded_bytes: u64,
    pub total_bytes: u64,
    pub speed_bytes_per_sec: u64,
    pub eta_seconds: u64,
    pub status: String,
}

/// The mathematical content of a `JavaDownloadProgress`.
pub struct JavaDownloadProgressView {
    pub file_name: Seq<char>,
    pub downloaded_bytes: u64,
    pub total_bytes: u64,
    pub speed_bytes_per_sec: u64,
    pub eta_seconds: u64,
    pub status: Seq<char>,
}

impl View for JavaDownloadProgress {
    type V = JavaDownloadProgressView;

    open spec fn view(&self) -> JavaDownloadProgressView {
        JavaDownloadProgressView {
            file_name: self.file_name@,
            downloaded_bytes: self.downloaded_bytes,
            total_bytes: self.total_bytes,
            speed_bytes_per_sec: self.speed_bytes_per_sec,
            eta_seconds: self.eta_seconds,
            status: self.status@,
        }
    }
}

/// The report of a transfer under way: the bytes so far, the speed
/// measured by the caller, and the time left at that speed.
pub fn downloading_report(
    file_name: &str,
    downloaded: u64,
    total_size: u64,
    speed: u64,
) -> (report: JavaDownloadProgress)
    ensures
        report@ == (JavaDownloadProgressView {
            file_name: file_name@,
            downloaded_bytes: downloaded,
            total_bytes: total_size,
            speed_bytes_per_sec: speed,
            eta_seconds: eta_of(downloaded, total_size, speed) as u64,
            status: "Downloading"@,
        }),
{
    let remaining = total_size.saturating_sub(downloaded);
    let eta: u64 = if speed > 0 {
        remaining / speed
    } else {
        0
    };
    JavaDownloadProgress {
        file_name: file_name.to_string(),
        downloaded_bytes: downloaded,
        total_bytes: total_size,
        speed_bytes_per_sec: speed,
        eta_seconds: eta,
        status: TransferStatus::Downloading.label().to_string(),
    }
}

/// The report of a stage that follows the download (verifying, extracting,
/// completed): all bytes fetched, no speed and no time left.
pub fn stage_report(file_name: &str, total_size: u64, status: TransferStatus) -> (report:
    JavaDownloadProgress)
    ensures
        report@ == (JavaDownloadProgressView {
            file_name: file_name@,
            downloaded_bytes: total_size,
            total_bytes: total_size,
            speed_bytes_per_sec: 0,
            eta_seconds: 0,
            status: status.label_of(),
        }),
{
    JavaDownloadProgress {
        file_name: file_name.to_string(),
        downloaded_bytes: total_size,
        total_bytes: total_size,
        speed_bytes_per_sec: 0,
        eta_seconds: 0,
        status: status.label().to_string(),
    }
}

} // verus!
