//! The decisions of a segmented transfer: which ranges to request, what a
//! segment worker does with each event, how the workers' outcomes settle,
//! and how the transfer ends.
//!
//! The caller performs the requests and the file operations; every choice
//! between them is made here. Resume is by whole segments: a segment that was
//! not completed is fetched again from its resume offset, and partial
//! progress inside a segment is not recorded.

use vstd::prelude::*;

use crate::integrity::{checksum_ok, verify_checksum};
use crate::plan::{
    create_new_metadata, fresh_metadata, lemma_segment_within_file, DownloadMetadata,
    DownloadSegment, MetadataView,
};
use crate::text::{concat2, decimal, decimal_string};

verus! {

/// The most segment workers that run at once for one file.
pub const MAX_SEGMENT_WORKERS: usize = 8;

/// A request for the bytes `first..=last` of a file, for the segment at
/// `index`.
#[derive(Clone, Copy, Debug, PartialEq, Eq, Structural)]
pub struct RangeRequest {
    pub index: usize,
    pub first: u64,
    pub last: u64,
}

/// The request that fetches segment `i`.
pub open spec fn request_for(segments: Seq<DownloadSegment>, i: int) -> RangeRequest {
    RangeRequest {
        index: i as usize,
        first: segments[i].resume_offset() as u64,
        last: segments[i].end,
    }
}

/// The requests for the segments that are not complete, in segment order.
pub open spec fn pending_requests_of(segments: Seq<DownloadSegment>) -> Seq<RangeRequest>
    decreases segments.len(),
{
    if segments.len() == 0 {
        Seq::empty()
    } else if segments.last().completed {
        pending_requests_of(segments.drop_last())
    } else {
        pending_requests_of(segments.drop_last()).push(request_for(segments, segments.len() - 1))
    }
}

/// The number of complete segments.
pub open spec fn completed_count(segments: Seq<DownloadSegment>) -> nat
    decreases segments.len(),
{
    if segments.len() == 0 {
        0
    } else if segments.last().completed {
        completed_count(segments.drop_last()) + 1
    } else {
        completed_count(segments.drop_last())
    }
}

/// Every segment is complete.
pub open spec fn all_completed(segments: Seq<DownloadSegment>) -> bool {
    forall|i: int| 0 <= i < segments.len() ==> (#[trigger] segments[i]).completed
}

/// With N of M segments complete, a resumed transfer requests M - N ranges:
/// one for each segment that is not complete, and none for one that is.
pub proof fn law_resume_requests_only_incomplete(segments: Seq<DownloadSegment>)
    requires
        segments.len() <= usize::MAX,
    ensures
        pending_requests_of(segments).len() + completed_count(segments) == segments.len(),
        forall|k: int|
            0 <= k < pending_requests_of(segments).len() ==> {
                let r = #[trigger] pending_requests_of(segments)[k];
                &&& 0 <= r.index < segments.len()
                &&& !segments[r.index as int].completed
                &&& r == request_for(segments, r.index as int)
            },
        forall|j: int, k: int|
            0 <= j < k < pending_requests_of(segments).len() ==> pending_requests_of(
                segments,
            )[j].index < pending_requests_of(segments)[k].index,
        all_completed(segments) <==> pending_requests_of(segments).len() == 0,
    decreases segments.len(),
{
    if segments.len() > 0 {
        let rest = segments.drop_last();
        law_resume_requests_only_incomplete(rest);
        let reqs = pending_requests_of(segments);
        assert forall|k: int| 0 <= k < reqs.len() implies {
            let r = #[trigger] reqs[k];
            &&& 0 <= r.index < segments.len()
            &&& !segments[r.index as int].completed
            &&& r == request_for(segments, r.index as int)
        } by {
            if k < pending_requests_of(rest).len() {
                let r = pending_requests_of(rest)[k];
                assert(rest[r.index as int] == segments[r.index as int]);
                assert(r == request_for(rest, r.index as int));
            } else {
                assert(reqs[k] == request_for(segments, segments.len() - 1));
            }
        }
        assert forall|j: int, k: int| 0 <= j < k < reqs.len() implies reqs[j].index
            < reqs[k].index by {
            let r = pending_requests_of(rest)[j];
            assert(0 <= r.index < rest.len());
        }
        if all_completed(segments) {
            assert forall|i: int| 0 <= i < rest.len() implies (#[trigger] rest[i]).completed by {
                assert(rest[i] == segments[i]);
            }
            assert(segments[segments.len() - 1].completed);
        }
        if reqs.len() == 0 {
            assert forall|i: int| 0 <= i < segments.len() implies (#[trigger] segments[i]).completed by {
                if i < rest.len() {
                    assert(rest[i] == segments[i]);
                }
            }
        }
    }
}

/// The range requests that a transfer in the state `metadata` has to make:
/// one per segment that is not complete, in segment order, each from the
/// segment's resume offset to its end.
pub fn pending_requests(metadata: &DownloadMetadata) -> (requests: Vec<RangeRequest>)
    requires
        metadata@.wf(),
    ensures
        requests@ == pending_requests_of(metadata.segments@),
        requests@.len() + completed_count(metadata.segments@) == metadata.segments@.len(),
{
    let mut requests: Vec<RangeRequest> = Vec::new();
    let n: usize = metadata.segments.len();
    let mut i: usize = 0;
    while i < n
        invariant
            metadata@.wf(),
            n == metadata.segments@.len(),
            i <= n,
            requests@ == pending_requests_of(metadata.segments@.take(i as int)),
        decreases n - i,
    {
        let seg = metadata.segments[i];
        let ghost prefix = metadata.segments@.take(i + 1);
        proof {
            assert(prefix.drop_last() =~= metadata.segments@.take(i as int));
            assert(prefix.last() == seg);
            assert(metadata.segments@[i as int].downloaded <= metadata.segments@[i as int].span());
            lemma_segment_within_file(metadata.segments@, metadata.total_size, i as int);
        }
        if !seg.completed {
            requests.push(
                RangeRequest { index: i, first: seg.start + seg.downloaded, last: seg.end },
            );
        }
        i += 1;
    }
    proof {
        assert(metadata.segments@.take(n as int) =~= metadata.segments@);
        law_resume_requests_only_incomplete(metadata.segments@);
    }
    requests
}

/// The value of the `Range` header for a request: `bytes=<first>-<last>`.
pub open spec fn range_header_of(first: u64, last: u64) -> Seq<char> {
    "bytes="@ + decimal(first as nat) + "-"@ + decimal(last as nat)
}

/// The value of the `Range` header that asks for the bytes of `request`.
pub fn range_header(request: &RangeRequest) -> (header: String)
    ensures
        header@ == range_header_of(request.first, request.last),
{
    let first = decimal_string(request.first);
    let last = decimal_string(request.last);
    let mut header = concat2("bytes=", first.as_str());
    header.append("-");
    header.append(last.as_str());
    header
}

/// The number of workers that may run at once for a file of
/// `segment_count` segments: one per segment, and at most eight.
pub fn worker_limit(segment_count: usize) -> (limit: usize)
    ensures
        limit == if segment_count <= MAX_SEGMENT_WORKERS {
            segment_count
        } else {
            MAX_SEGMENT_WORKERS
        },
{
    if segment_count <= MAX_SEGMENT_WORKERS {
        segment_count
    } else {
        MAX_SEGMENT_WORKERS
    }
}

/// Whether a response with this status code carries the requested bytes:
/// any success code, which includes 206 Partial Content.
pub fn accepts_status(code: u16) -> (ok: bool)
    ensures
        ok == (200 <= code <= 299),
{
    200 <= code && code <= 299
}

/// The state a transfer starts from: the record found beside the partial
/// file if it is one the engine can resume from, else a fresh plan.
pub open spec fn starting_state(
    found: Option<MetadataView>,
    url: Seq<char>,
    file_name: Seq<char>,
    total_size: u64,
    checksum: Option<Seq<char>>,
    now: u64,
) -> MetadataView {
    match found {
        Some(record) if record.wf() => record,
        _ => fresh_metadata(url, file_name, total_size, checksum, now),
    }
}

/// The view of an optional record.
pub open spec fn opt_record(found: Option<DownloadMetadata>) -> Option<MetadataView> {
    match found {
        Some(record) => Some(record@),
        None => None,
    }
}

/// The state a transfer starts from. A record found beside the partial file
/// is kept as it is, plan and progress, provided its segments still split the
/// file; without one, or with one that does not, a fresh plan is made for
/// `total_size` and stamped with the current time.
pub fn resume_or_plan(
    found: Option<DownloadMetadata>,
    url: &str,
    file_name: &str,
    total_size: u64,
    checksum: Option<&str>,
) -> (metadata: DownloadMetadata)
    requires
        total_size > 0,
    ensures
        metadata@ == starting_state(
            opt_record(found),
            url@,
            file_name@,
            total_size,
            crate::text::opt_text(checksum),
            metadata.timestamp,
        ),
        metadata@.wf(),
{
    match found {
        Some(record) => {
            if record.is_well_formed() {
                record
            } else {
                create_new_metadata(url, file_name, total_size, checksum)
            }
        },
        None => create_new_metadata(url, file_name, total_size, checksum),
    }
}

/// The record is one that a transfer resumes from.
pub open spec fn is_usable(found: Option<MetadataView>) -> bool {
    found matches Some(record) && record.wf()
}

/// Begins a transfer: gives the state it starts from, as `resume_or_plan`
/// does, and the file changes to make before any request. A fresh plan is
/// stored at once, so that the record exists from the first moment; a
/// record that is resumed stands as it is.
pub fn begin_transfer(
    found: Option<DownloadMetadata>,
    url: &str,
    file_name: &str,
    total_size: u64,
    checksum: Option<&str>,
) -> (start: (DownloadMetadata, Vec<FileAction>))
    requires
        total_size > 0,
    ensures
        start.0@ == starting_state(
            opt_record(found),
            url@,
            file_name@,
            total_size,
            crate::text::opt_text(checksum),
            start.0.timestamp,
        ),
        start.0@.wf(),
        start.1@ == if is_usable(opt_record(found)) {
            Seq::<FileAction>::empty()
        } else {
            seq![FileAction::StoreRecord]
        },
{
    let fresh = match &found {
        Some(record) => !record.is_well_formed(),
        None => true,
    };
    let metadata = resume_or_plan(found, url, file_name, total_size, checksum);
    let mut actions: Vec<FileAction> = Vec::new();
    if fresh {
        actions.push(FileAction::StoreRecord);
        assert(actions@ =~= seq![FileAction::StoreRecord]);
    }
    (metadata, actions)
}

/// Where a segment worker stands.
#[derive(Clone, Copy, Debug, PartialEq, Eq, Structural)]
pub enum SegmentPhase {
    /// Nothing requested yet.
    Pending,
    /// The request is out and chunks are being written.
    InProgress,
    /// Every chunk of the response has been written.
    Completed,
    /// The worker gave up; the segment is not complete.
    Stopped,
}

/// Why a segment worker gave up.
#[derive(Clone, Copy, Debug, PartialEq, Eq, Structural)]
pub enum SegmentFailure {
    /// The cancellation signal was set.
    Cancelled,
    /// The server answered with a status that carries no content.
    Rejected,
    /// The request or the response stream failed.
    Network,
    /// Seeking or writing in the partial file failed.
    Io,
}

/// What the caller does next for a segment worker.
#[derive(Clone, Copy, Debug, PartialEq, Eq, Structural)]
pub enum WorkerAction {
    /// Send this range request and report the response.
    Request(RangeRequest),
    /// Read the next chunk of the response and report it.
    ReadChunk,
    /// Write the chunk just read at `offset` of the partial file, holding
    /// the file exclusively, then read the next chunk.
    Write { offset: u64, len: u64 },
    /// The segment is complete: report it.
    Finish { index: usize },
    /// Give up and report the failure.
    Abort(SegmentFailure),
}

/// The worker of one segment: a state machine that the caller feeds with
/// what happened and that answers with what to do.
#[derive(Clone, Copy, Debug, PartialEq, Eq, Structural)]
pub struct SegmentWorker {
    /// The segment's place in the plan.
    pub index: usize,
    /// The offset of the next byte to write.
    pub position: u64,
    /// The offset of the segment's last byte.
    pub last: u64,
    /// Where the worker stands.
    pub phase: SegmentPhase,
}

impl SegmentWorker {
    /// A worker for `request`, not yet started.
    pub fn new(request: RangeRequest) -> (worker: SegmentWorker)
        ensures
            worker == (SegmentWorker {
                index: request.index,
                position: request.first,
                last: request.last,
                phase: SegmentPhase::Pending,
            }),
    {
        SegmentWorker {
            index: request.index,
            position: request.first,
            last: request.last,
            phase: SegmentPhase::Pending,
        }
    }

    /// Starts the worker. With the cancellation signal set it gives up
    /// before any request; otherwise it asks for its range.
    pub fn start(&mut self, cancelled: bool) -> (action: WorkerAction)
        requires
            old(self).phase == SegmentPhase::Pending,
        ensures
            cancelled ==> action == WorkerAction::Abort(SegmentFailure::Cancelled) && *final(self)
                == (SegmentWorker { phase: SegmentPhase::Stopped, ..*old(self) }),
            !cancelled ==> action == WorkerAction::Request(
                RangeRequest {
                    index: old(self).index,
                    first: old(self).position,
                    last: old(self).last,
                },
            ) && *final(self) == (SegmentWorker { phase: SegmentPhase::InProgress, ..*old(self) }),
    {
        if cancelled {
            self.phase = SegmentPhase::Stopped;
            WorkerAction::Abort(SegmentFailure::Cancelled)
        } else {
            self.phase = SegmentPhase::InProgress;
            WorkerAction::Request(
                RangeRequest { index: self.index, first: self.position, last: self.last },
            )
        }
    }

    /// Takes the status code of the response: a success code lets the
    /// worker read on, any other makes it give up.
    pub fn on_response(&mut self, status: u16) -> (action: WorkerAction)
        requires
            old(self).phase == SegmentPhase::InProgress,
        ensures
            200 <= status <= 299 ==> action == WorkerAction::ReadChunk && *final(self) == *old(
                self,
            ),
            !(200 <= status <= 299) ==> action == WorkerAction::Abort(SegmentFailure::Rejected)
                && *final(self) == (SegmentWorker { phase: SegmentPhase::Stopped, ..*old(self) }),
    {
        if accepts_status(status) {
            WorkerAction::ReadChunk
        } else {
            self.phase = SegmentPhase::Stopped;
            WorkerAction::Abort(SegmentFailure::Rejected)
        }
    }

    /// Takes a chunk of `len` bytes. With the cancellation signal set the
    /// worker gives up, writes nothing and stays incomplete; otherwise the
    /// chunk goes to the worker's position, which moves past it. A chunk
    /// that would end beyond the last representable offset is a failure.
    pub fn on_chunk(&mut self, len: u64, cancelled: bool) -> (action: WorkerAction)
        requires
            old(self).phase == SegmentPhase::InProgress,
        ensures
            cancelled ==> action == WorkerAction::Abort(SegmentFailure::Cancelled) && *final(self)
                == (SegmentWorker { phase: SegmentPhase::Stopped, ..*old(self) }),
            !cancelled && old(self).position + len <= u64::MAX ==> action == (WorkerAction::Write {
                offset: old(self).position,
                len,
            }) && *final(self) == (SegmentWorker {
                position: (old(self).position + len) as u64,
                ..*old(self)
            }),
            !cancelled && old(self).position + len > u64::MAX ==> action == WorkerAction::Abort(
                SegmentFailure::Io,
            ) && *final(self) == (SegmentWorker { phase: SegmentPhase::Stopped, ..*old(self) }),
    {
        if cancelled {
            self.phase = SegmentPhase::Stopped;
            return WorkerAction::Abort(SegmentFailure::Cancelled);
        }
        match self.position.checked_add(len) {
            Some(next) => {
                let offset = self.position;
                self.position = next;
                WorkerAction::Write { offset, len }
            },
            None => {
                self.phase = SegmentPhase::Stopped;
                WorkerAction::Abort(SegmentFailure::Io)
            },
        }
    }

    /// Takes a failure of the request, the stream or a write: the worker
    /// gives up and stays incomplete.
    pub fn on_error(&mut self, failure: SegmentFailure) -> (action: WorkerAction)
        ensures
            action == WorkerAction::Abort(failure),
            *final(self) == (SegmentWorker { phase: SegmentPhase::Stopped, ..*old(self) }),
    {
        self.phase = SegmentPhase::Stopped;
        WorkerAction::Abort(failure)
    }

    /// Takes the end of the response: the segment is complete.
    pub fn on_end(&mut self) -> (action: WorkerAction)
        requires
            old(self).phase == SegmentPhase::InProgress,
        ensures
            action == (WorkerAction::Finish { index: old(self).index }),
            *final(self) == (SegmentWorker { phase: SegmentPhase::Completed, ..*old(self) }),
    {
        self.phase = SegmentPhase::Completed;
        WorkerAction::Finish { index: self.index }
    }
}

/// How one segment worker ended.
#[derive(Clone, Copy, Debug, PartialEq, Eq, Structural)]
pub enum SegmentOutcome {
    /// The worker wrote every byte of the segment at this index.
    Completed(usize),
    /// The worker saw the cancellation signal and stopped.
    Cancelled,
    /// The request, the stream or a write failed.
    Failed,
    /// The worker ended abnormally. It counts as a failed segment.
    Panicked,
}

/// The outcome that a worker's last action reports.
pub fn outcome_of(action: WorkerAction) -> (outcome: Option<SegmentOutcome>)
    ensures
        outcome == match action {
            WorkerAction::Finish { index } => Some(SegmentOutcome::Completed(index)),
            WorkerAction::Abort(SegmentFailure::Cancelled) => Some(SegmentOutcome::Cancelled),
            WorkerAction::Abort(_) => Some(SegmentOutcome::Failed),
            _ => None,
        },
{
    match action {
        WorkerAction::Finish { index } => Some(SegmentOutcome::Completed(index)),
        WorkerAction::Abort(SegmentFailure::Cancelled) => Some(SegmentOutcome::Cancelled),
        WorkerAction::Abort(_) => Some(SegmentOutcome::Failed),
        _ => None,
    }
}

/// Some worker reports segment `i` complete.
pub open spec fn reported_complete(outcomes: Seq<SegmentOutcome>, i: int) -> bool {
    exists|k: int|
        0 <= k < outcomes.len() && #[trigger] outcomes[k] == SegmentOutcome::Completed(i as usize)
}

/// Some worker was cancelled.
pub open spec fn any_cancelled(outcomes: Seq<SegmentOutcome>) -> bool {
    exists|k: int| 0 <= k < outcomes.len() && #[trigger] outcomes[k] == SegmentOutcome::Cancelled
}

/// Some worker failed or ended abnormally.
pub open spec fn any_failed(outcomes: Seq<SegmentOutcome>) -> bool {
    exists|k: int|
        0 <= k < outcomes.len() && (#[trigger] outcomes[k] == SegmentOutcome::Failed || outcomes[k]
            == SegmentOutcome::Panicked)
}

/// The segments once the workers' outcomes are taken in: a segment that a
/// worker reports complete is complete, and nothing else changes.
pub open spec fn settled_segments(
    segments: Seq<DownloadSegment>,
    outcomes: Seq<SegmentOutcome>,
) -> Seq<DownloadSegment> {
    Seq::new(
        segments.len(),
        |i: int|
            if reported_complete(outcomes, i) {
                DownloadSegment { completed: true, ..segments[i] }
            } else {
                segments[i]
            },
    )
}

/// How the workers' run ended as a whole.
#[derive(Clone, Copy, Debug, PartialEq, Eq, Structural)]
pub enum Verdict {
    /// Every segment is complete: the file can be verified.
    ReadyToVerify,
    /// The run was cancelled.
    Cancelled,
    /// Some segments are not complete.
    PartialFailure,
}

/// The verdict on a run: cancelled if any worker was; else failed if any
/// worker failed or any segment is left incomplete; else ready.
pub open spec fn verdict_of(settled: Seq<DownloadSegment>, outcomes: Seq<SegmentOutcome>) -> Verdict {
    if any_cancelled(outcomes) {
        Verdict::Cancelled
    } else if any_failed(outcomes) || !all_completed(settled) {
        Verdict::PartialFailure
    } else {
        Verdict::ReadyToVerify
    }
}

/// The record after a run: the settled segments and the bytes fetched so
/// far; the rest as before.
pub open spec fn settled_record(
    before: MetadataView,
    outcomes: Seq<SegmentOutcome>,
    progress_bytes: u64,
) -> MetadataView {
    MetadataView {
        downloaded_bytes: progress_bytes,
        segments: settled_segments(before.segments, outcomes),
        ..before
    }
}

/// Taking in one more outcome changes at most the segment it names.
proof fn lemma_settle_step(
    segments: Seq<DownloadSegment>,
    outcomes: Seq<SegmentOutcome>,
    k: int,
)
    requires
        0 <= k < outcomes.len(),
        segments.len() <= usize::MAX,
    ensures
        settled_segments(segments, outcomes.take(k + 1)) == match outcomes[k] {
            SegmentOutcome::Completed(i) if i < segments.len() => settled_segments(
                segments,
                outcomes.take(k),
            ).update(
                i as int,
                DownloadSegment {
                    completed: true,
                    ..settled_segments(segments, outcomes.take(k))[i as int]
                },
            ),
            _ => settled_segments(segments, outcomes.take(k)),
        },
        any_cancelled(outcomes.take(k + 1)) == (any_cancelled(outcomes.take(k)) || outcomes[k]
            == SegmentOutcome::Cancelled),
        any_failed(outcomes.take(k + 1)) == (any_failed(outcomes.take(k)) || outcomes[k]
            == SegmentOutcome::Failed || outcomes[k] == SegmentOutcome::Panicked),
{
    let shorter = outcomes.take(k);
    let longer = outcomes.take(k + 1);
    assert(longer[k] == outcomes[k]);
    assert forall|j: int| 0 <= j < k implies #[trigger] longer[j] == shorter[j] by {}
    assert forall|i: int| 0 <= i < segments.len() implies reported_complete(longer, i) == (
    reported_complete(shorter, i) || outcomes[k] == SegmentOutcome::Completed(i as usize)) by {
        if reported_complete(shorter, i) {
            let w = choose|w: int|
                0 <= w < shorter.len() && #[trigger] shorter[w] == SegmentOutcome::Completed(
                    i as usize,
                );
            assert(longer[w] == SegmentOutcome::Completed(i as usize));
        }
        if reported_complete(longer, i) {
            let w = choose|w: int|
                0 <= w < longer.len() && #[trigger] longer[w] == SegmentOutcome::Completed(
                    i as usize,
                );
            if w < k {
                assert(shorter[w] == SegmentOutcome::Completed(i as usize));
            }
        }
    }
    let target = match outcomes[k] {
        SegmentOutcome::Completed(i) if i < segments.len() => settled_segments(segments, shorter).update(
            i as int,
            DownloadSegment { completed: true, ..settled_segments(segments, shorter)[i as int] },
        ),
        _ => settled_segments(segments, shorter),
    };
    assert(settled_segments(segments, longer) =~= target);
    if any_cancelled(shorter) {
        let w = choose|w: int| 0 <= w < shorter.len() && #[trigger] shorter[w] == SegmentOutcome::Cancelled;
        assert(longer[w] == SegmentOutcome::Cancelled);
    }
    if any_cancelled(longer) {
        let w = choose|w: int| 0 <= w < longer.len() && #[trigger] longer[w] == SegmentOutcome::Cancelled;
        if w < k {
            assert(shorter[w] == SegmentOutcome::Cancelled);
        }
    }
    if any_failed(shorter) {
        let w = choose|w: int|
            0 <= w < shorter.len() && (#[trigger] shorter[w] == SegmentOutcome::Failed || shorter[w]
                == SegmentOutcome::Panicked);
        assert(longer[w] == shorter[w]);
    }
    if any_failed(longer) {
        let w = choose|w: int|
            0 <= w < longer.len() && (#[trigger] longer[w] == SegmentOutcome::Failed || longer[w]
                == SegmentOutcome::Panicked);
        if w < k {
            assert(shorter[w] == longer[w]);
        }
    }
}

/// Settling keeps what makes a record resumable: the ranges and the bytes
/// claimed stay as they are, and a complete segment stays complete.
pub proof fn law_settle_keeps_plan(
    before: MetadataView,
    outcomes: Seq<SegmentOutcome>,
    progress_bytes: u64,
)
    requires
        before.wf(),
    ensures
        settled_record(before, outcomes, progress_bytes).wf(),
        settled_record(before, outcomes, progress_bytes).segments.len() == before.segments.len(),
        forall|i: int|
            0 <= i < before.segments.len() ==> {
                let old_seg = #[trigger] before.segments[i];
                let new_seg = settled_record(before, outcomes, progress_bytes).segments[i];
                &&& new_seg.start == old_seg.start
                &&& new_seg.end == old_seg.end
                &&& new_seg.downloaded == old_seg.downloaded
                &&& old_seg.completed ==> new_seg.completed
                &&& new_seg.completed == (old_seg.completed || reported_complete(outcomes, i))
            },
{
    let after = settled_record(before, outcomes, progress_bytes).segments;
    assert forall|i: int| 0 <= i < after.len() - 1 implies (#[trigger] after[i + 1]).start
        == after[i].end + 1 by {
        assert(before.segments[i + 1].start == before.segments[i].end + 1);
    }
    assert forall|i: int| 0 <= i < after.len() implies (#[trigger] after[i]).start
        <= after[i].end && after[i].downloaded <= after[i].span() by {
        assert(before.segments[i].start <= before.segments[i].end);
        assert(before.segments[i].downloaded <= before.segments[i].span());
    }
}

/// Takes in how the segment workers ended, once all of them have: marks the
/// segments they completed, records the bytes fetched so far, and gives
/// the verdict on the run. An outcome that names no segment of the plan
/// changes nothing.
pub fn settle(
    metadata: &mut DownloadMetadata,
    outcomes: &[SegmentOutcome],
    progress_bytes: u64,
) -> (verdict: Verdict)
    requires
        old(metadata)@.wf(),
    ensures
        final(metadata)@ == settled_record(old(metadata)@, outcomes@, progress_bytes),
        final(metadata)@.wf(),
        verdict == verdict_of(final(metadata)@.segments, outcomes@),
{
    let ghost before = metadata@;
    let n: usize = metadata.segments.len();
    let mut cancelled = false;
    let mut failed = false;
    let mut k: usize = 0;
    assert(metadata.segments@ =~= settled_segments(before.segments, outcomes@.take(0)));
    while k < outcomes.len()
        invariant
            k <= outcomes@.len(),
            n == before.segments.len(),
            metadata@ == (MetadataView {
                segments: settled_segments(before.segments, outcomes@.take(k as int)),
                ..before
            }),
            cancelled == any_cancelled(outcomes@.take(k as int)),
            failed == any_failed(outcomes@.take(k as int)),
        decreases outcomes@.len() - k,
    {
        proof {
            lemma_settle_step(before.segments, outcomes@, k as int);
        }
        match outcomes[k] {
            SegmentOutcome::Completed(index) => {
                if index < n {
                    let seg = metadata.segments[index];
                    metadata.segments.set(index, DownloadSegment { completed: true, ..seg });
                }
            },
            SegmentOutcome::Cancelled => {
                cancelled = true;
            },
            SegmentOutcome::Failed => {
                failed = true;
            },
            SegmentOutcome::Panicked => {
                failed = true;
            },
        }
        k += 1;
    }
    metadata.downloaded_bytes = progress_bytes;
    proof {
        assert(outcomes@.take(outcomes@.len() as int) =~= outcomes@);
        law_settle_keeps_plan(before, outcomes@, progress_bytes);
    }
    if cancelled {
        Verdict::Cancelled
    } else if failed || !every_segment_completed(metadata) {
        Verdict::PartialFailure
    } else {
        Verdict::ReadyToVerify
    }
}

/// Whether every segment of the record is complete.
pub fn every_segment_completed(metadata: &DownloadMetadata) -> (done: bool)
    ensures
        done == all_completed(metadata.segments@),
{
    let mut i: usize = 0;
    while i < metadata.segments.len()
        invariant
            i <= metadata.segments@.len(),
            forall|j: int| 0 <= j < i ==> (#[trigger] metadata.segments@[j]).completed,
        decreases metadata.segments@.len() - i,
    {
        if !metadata.segments[i].completed {
            return false;
        }
        i += 1;
    }
    true
}

/// Takes in that the worker of the segment at `index` has written every
/// byte of it, while other workers may still run: marks the segment
/// complete, records the bytes fetched so far, and asks for the record to
/// be stored, so that a restart after a crash does not fetch the segment
/// again. An index that names no segment changes no segment.
pub fn record_completed(metadata: &mut DownloadMetadata, index: usize, progress_bytes: u64) -> (actions:
    Vec<FileAction>)
    requires
        old(metadata)@.wf(),
    ensures
        final(metadata)@ == settled_record(
            old(metadata)@,
            seq![SegmentOutcome::Completed(index)],
            progress_bytes,
        ),
        final(metadata)@.wf(),
        actions@ == seq![FileAction::StoreRecord],
{
    let mut outcomes: Vec<SegmentOutcome> = Vec::new();
    outcomes.push(SegmentOutcome::Completed(index));
    assert(outcomes@ =~= seq![SegmentOutcome::Completed(index)]);
    let _ = settle(metadata, outcomes.as_slice(), progress_bytes);
    let mut actions: Vec<FileAction> = Vec::new();
    actions.push(FileAction::StoreRecord);
    assert(actions@ =~= seq![FileAction::StoreRecord]);
    actions
}

/// A record stored after a segment completed is resumed from as it
/// stands, and the resumed transfer requests every segment that is not
/// complete in it and no other: neither the segment just completed nor any
/// that was complete before.
pub proof fn law_restart_skips_completed_segments(
    before: MetadataView,
    index: usize,
    progress_bytes: u64,
    url: Seq<char>,
    file_name: Seq<char>,
    total_size: u64,
    checksum: Option<Seq<char>>,
    now: u64,
)
    requires
        before.wf(),
        before.segments.len() <= usize::MAX,
        index < before.segments.len(),
    ensures
        ({
            let stored = settled_record(
                before,
                seq![SegmentOutcome::Completed(index)],
                progress_bytes,
            );
            let resumed = starting_state(Some(stored), url, file_name, total_size, checksum, now);
            let requests = pending_requests_of(resumed.segments);
            &&& resumed == stored
            &&& stored.segments[index as int].completed
            &&& requests.len() + completed_count(stored.segments) == stored.segments.len()
            &&& forall|k: int|
                0 <= k < requests.len() ==> (#[trigger] requests[k]).index != index
                    && !before.segments[requests[k].index as int].completed
        }),
{
    let outcomes = seq![SegmentOutcome::Completed(index)];
    let stored = settled_record(before, outcomes, progress_bytes);
    law_settle_keeps_plan(before, outcomes, progress_bytes);
    law_resume_requests_only_incomplete(stored.segments);
    assert(outcomes[0] == SegmentOutcome::Completed(index));
    assert(reported_complete(outcomes, index as int));
    let requests = pending_requests_of(stored.segments);
    assert forall|k: int| 0 <= k < requests.len() implies (#[trigger] requests[k]).index != index
        && !before.segments[requests[k].index as int].completed by {
        let r = requests[k];
        assert(!stored.segments[r.index as int].completed);
        assert(before.segments[r.index as int].completed ==> stored.segments[r.index as int].completed);
    }
}

/// Why a transfer did not deliver its file.
#[derive(Debug)]
pub enum TransferError {
    /// A request or a response stream failed.
    Network(String),
    /// The content failed verification.
    ChecksumMismatch,
    /// A file operation failed.
    Io(String),
    /// The cancellation signal was seen.
    Cancelled,
    /// The segments at these indices are not complete.
    PartialFailure(Vec<usize>),
}

/// The text that describes an error.
pub open spec fn message_of(error: TransferError) -> Seq<char> {
    match error {
        TransferError::Network(detail) => detail@,
        TransferError::ChecksumMismatch => "Checksum verification failed"@,
        TransferError::Io(detail) => detail@,
        TransferError::Cancelled => "Download cancelled"@,
        TransferError::PartialFailure(_) => "Some segments failed"@,
    }
}

impl TransferError {
    /// The text that describes the error.
    pub fn message(&self) -> (text: String)
        ensures
            text@ == message_of(*self),
    {
        match self {
            TransferError::Network(detail) => detail.clone(),
            TransferError::ChecksumMismatch => "Checksum verification failed".to_string(),
            TransferError::Io(detail) => detail.clone(),
            TransferError::Cancelled => "Download cancelled".to_string(),
            TransferError::PartialFailure(_) => "Some segments failed".to_string(),
        }
    }
}

/// The indices of the segments that are not complete, ascending.
pub open spec fn incomplete_indices(segments: Seq<DownloadSegment>) -> Seq<usize> {
    pending_requests_of(segments).map_values(|r: RangeRequest| r.index)
}

/// The error that ends a run which did not complete every segment, if it
/// did not: cancellation for a cancelled run, else the list of the segments
/// that are left. A run that is ready for verification has none.
pub fn run_error(verdict: Verdict, metadata: &DownloadMetadata) -> (error: Option<TransferError>)
    requires
        metadata@.wf(),
    ensures
        verdict == Verdict::ReadyToVerify ==> error is None,
        verdict == Verdict::Cancelled ==> error == Some(TransferError::Cancelled),
        verdict == Verdict::PartialFailure ==> error is Some && (error->0 matches TransferError::PartialFailure(
            left,
        ) && left@ == incomplete_indices(metadata.segments@)),
{
    match verdict {
        Verdict::ReadyToVerify => None,
        Verdict::Cancelled => Some(TransferError::Cancelled),
        Verdict::PartialFailure => {
            let requests = pending_requests(metadata);
            let mut left: Vec<usize> = Vec::new();
            let mut i: usize = 0;
            while i < requests.len()
                invariant
                    i <= requests@.len(),
                    left@ == requests@.take(i as int).map_values(|r: RangeRequest| r.index),
                decreases requests@.len() - i,
            {
                left.push(requests[i].index);
                assert(requests@.take(i + 1).map_values(|r: RangeRequest| r.index)
                    =~= requests@.take(i as int).map_values(|r: RangeRequest| r.index).push(
                    requests@[i as int].index,
                ));
                i += 1;
            }
            assert(requests@.take(requests@.len() as int) =~= requests@);
            Some(TransferError::PartialFailure(left))
        },
    }
}

/// Judges a fully fetched file: it is accepted if no hash is declared or its
/// SHA-256 hash is the declared one, and rejected as a checksum mismatch
/// otherwise. `data` is the whole content of the partial file; it is not
/// looked at where no hash is declared.
pub fn conclude(checksum: Option<&str>, data: &[u8]) -> (result: Result<(), TransferError>)
    ensures
        checksum_ok(data@, crate::text::opt_text(checksum), None) ==> result is Ok,
        !checksum_ok(data@, crate::text::opt_text(checksum), None) ==> result == Err::<
            (),
            TransferError,
        >(TransferError::ChecksumMismatch),
{
    if verify_checksum(data, checksum, None) {
        Ok(())
    } else {
        Err(TransferError::ChecksumMismatch)
    }
}

/// A change to the files of one transfer.
#[derive(Clone, Copy, Debug, PartialEq, Eq, Structural)]
pub enum FileAction {
    /// Write the current record beside the partial file.
    StoreRecord,
    /// Delete the partial file.
    RemovePartial,
    /// Delete the record.
    RemoveRecord,
    /// Rename the partial file to its destination.
    CommitPartial,
}

/// The file changes that follow the end of a transfer, in order: a verified
/// file is committed and its record removed; a mismatch removes the partial
/// file and the record, so that the next attempt starts over; a cancelled or
/// partly failed run stores the record for a later resume; any other error
/// leaves the files alone.
pub open spec fn end_actions_of(result: Result<(), TransferError>) -> Seq<FileAction> {
    match result {
        Ok(_) => seq![FileAction::CommitPartial, FileAction::RemoveRecord],
        Err(TransferError::ChecksumMismatch) => seq![
            FileAction::RemovePartial,
            FileAction::RemoveRecord,
        ],
        Err(TransferError::Cancelled) => seq![FileAction::StoreRecord],
        Err(TransferError::PartialFailure(_)) => seq![FileAction::StoreRecord],
        Err(_) => Seq::empty(),
    }
}

/// The file changes that follow the end of a transfer, in order.
pub fn end_actions(result: &Result<(), TransferError>) -> (actions: Vec<FileAction>)
    ensures
        actions@ == end_actions_of(*result),
{
    let mut actions: Vec<FileAction> = Vec::new();
    match result {
        Ok(_) => {
            actions.push(FileAction::CommitPartial);
            actions.push(FileAction::RemoveRecord);
            assert(actions@ =~= seq![FileAction::CommitPartial, FileAction::RemoveRecord]);
        },
        Err(TransferError::ChecksumMismatch) => {
            actions.push(FileAction::RemovePartial);
            actions.push(FileAction::RemoveRecord);
            assert(actions@ =~= seq![FileAction::RemovePartial, FileAction::RemoveRecord]);
        },
        Err(TransferError::Cancelled) => {
            actions.push(FileAction::StoreRecord);
            assert(actions@ =~= seq![FileAction::StoreRecord]);
        },
        Err(TransferError::PartialFailure(_)) => {
            actions.push(FileAction::StoreRecord);
            assert(actions@ =~= seq![FileAction::StoreRecord]);
        },
        Err(_) => {
            assert(actions@ =~= Seq::<FileAction>::empty());
        },
    }
    actions
}

/// A file is put in place only when every segment is complete and the
/// content has passed verification: a run is ready for verification only
/// with no worker cancelled or failed and no segment left, and the partial
/// file is committed for no result but success.
pub proof fn law_commit_needs_complete_and_verified(
    settled: Seq<DownloadSegment>,
    outcomes: Seq<SegmentOutcome>,
    result: Result<(), TransferError>,
)
    ensures
        verdict_of(settled, outcomes) == Verdict::ReadyToVerify <==> all_completed(settled)
            && !any_cancelled(outcomes) && !any_failed(outcomes),
        end_actions_of(result).contains(FileAction::CommitPartial) <==> result is Ok,
{
    let actions = end_actions_of(result);
    if result is Ok {
        assert(actions[0] == FileAction::CommitPartial);
    }
}

/// The files of one transfer as the engine sees them.
pub struct Workspace {
    /// The record beside the partial file, if there is one.
    pub record: Option<MetadataView>,
    /// Whether the partial file exists.
    pub partial: bool,
    /// Whether the destination holds the committed file.
    pub committed: bool,
}

/// The files after one change, with `current` the record in memory.
pub open spec fn after_action(files: Workspace, action: FileAction, current: MetadataView) -> Workspace {
    match action {
        FileAction::StoreRecord => Workspace { record: Some(current), ..files },
        FileAction::RemovePartial => Workspace { partial: false, ..files },
        FileAction::RemoveRecord => Workspace { record: None, ..files },
        FileAction::CommitPartial => Workspace {
            partial: false,
            committed: files.committed || files.partial,
            ..files
        },
    }
}

/// The files after a list of changes, made in order.
pub open spec fn after_actions(
    files: Workspace,
    actions: Seq<FileAction>,
    current: MetadataView,
) -> Workspace
    decreases actions.len(),
{
    if actions.len() == 0 {
        files
    } else {
        after_action(after_actions(files, actions.drop_last(), current), actions.last(), current)
    }
}

/// A checksum mismatch leaves neither the partial file nor its record, and
/// the next attempt starts from a fresh plan with nothing fetched and no
/// segment complete.
pub proof fn law_mismatch_forces_restart(
    files: Workspace,
    current: MetadataView,
    url: Seq<char>,
    file_name: Seq<char>,
    total_size: u64,
    checksum: Option<Seq<char>>,
    now: u64,
)
    requires
        total_size > 0,
    ensures
        ({
            let left = after_actions(
                files,
                end_actions_of(Err(TransferError::ChecksumMismatch)),
                current,
            );
            let next = starting_state(left.record, url, file_name, total_size, checksum, now);
            &&& left.record is None
            &&& !left.partial
            &&& left.committed == files.committed
            &&& next == fresh_metadata(url, file_name, total_size, checksum, now)
            &&& next.downloaded_bytes == 0
            &&& completed_count(next.segments) == 0
            &&& pending_requests_of(next.segments).len() == next.segments.len()
        }),
{
    reveal_with_fuel(after_actions, 3);
    let actions = end_actions_of(Err(TransferError::ChecksumMismatch));
    assert(actions.drop_last() =~= seq![FileAction::RemovePartial]);
    assert(actions.drop_last().drop_last() =~= Seq::<FileAction>::empty());
    let next = fresh_metadata(url, file_name, total_size, checksum, now);
    lemma_none_completed(next.segments);
    law_resume_requests_only_incomplete(next.segments);
}

/// Segments of which none is complete count no complete one.
proof fn lemma_none_completed(segments: Seq<DownloadSegment>)
    requires
        forall|i: int| 0 <= i < segments.len() ==> !(#[trigger] segments[i]).completed,
    ensures
        completed_count(segments) == 0,
    decreases segments.len(),
{
    if segments.len() > 0 {
        assert(!segments[segments.len() - 1].completed);
        assert forall|i: int| 0 <= i < segments.drop_last().len() implies !(
        #[trigger] segments.drop_last()[i]).completed by {
            assert(segments.drop_last()[i] == segments[i]);
        }
        lemma_none_completed(segments.drop_last());
    }
}

/// A cancelled run ends as cancelled whatever else happened, and what it
/// stores is a record that the next attempt resumes from as it stands: the
/// plan unchanged, with every segment complete that was complete before or
/// was completed in this run. The partial file stays.
pub proof fn law_cancel_leaves_resumable_record(
    files: Workspace,
    before: MetadataView,
    outcomes: Seq<SegmentOutcome>,
    progress_bytes: u64,
    url: Seq<char>,
    file_name: Seq<char>,
    total_size: u64,
    checksum: Option<Seq<char>>,
    now: u64,
)
    requires
        before.wf(),
        any_cancelled(outcomes),
    ensures
        ({
            let stored = settled_record(before, outcomes, progress_bytes);
            let left = after_actions(files, end_actions_of(Err(TransferError::Cancelled)), stored);
            &&& verdict_of(stored.segments, outcomes) == Verdict::Cancelled
            &&& left.record == Some(stored)
            &&& left.partial == files.partial
            &&& left.committed == files.committed
            &&& stored.wf()
            &&& starting_state(left.record, url, file_name, total_size, checksum, now) == stored
        }),
{
    let stored = settled_record(before, outcomes, progress_bytes);
    law_settle_keeps_plan(before, outcomes, progress_bytes);
    reveal_with_fuel(after_actions, 2);
    let actions = end_actions_of(Err(TransferError::Cancelled));
    assert(actions.drop_last() =~= Seq::<FileAction>::empty());
}

/// The path of the partial file of a destination: the destination with
/// `.part` appended.
pub fn partial_path(destination: &str) -> (path: String)
    ensures
        path@ == destination@ + ".part"@,
{
    concat2(destination, ".part")
}

/// The path of the record of a destination: the destination with
/// `.part.meta` appended.
pub fn sidecar_path(destination: &str) -> (path: String)
    ensures
        path@ == destination@ + ".part.meta"@,
{
    concat2(destination, ".part.meta")
}

} // verus!
