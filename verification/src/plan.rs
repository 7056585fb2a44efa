//! The segment plan of a large file and the resumable record of its progress.
//!
//! A large file is fetched as a number of byte ranges, its segments. The plan
//! is made once, from the file's size; a resumed download keeps the plan it
//! finds. The record of a download in flight is kept beside the partial file
//! and says which segments are complete.

use vstd::prelude::*;

use crate::clock::unix_time_secs;
use crate::text::{clone_text, opt_text, owned_text};

verus! {

/// One mebibyte, in bytes.
pub const MIB: u64 = 1_048_576;

/// Files below this size are fetched in one piece.
pub const SMALL_FILE_LIMIT: u64 = 20 * MIB;

/// Files below this size, and not small, are fetched in four segments; larger
/// ones in eight.
pub const MEDIUM_FILE_LIMIT: u64 = 100 * MIB;

/// The number of segments for a file of `size` bytes.
pub open spec fn segment_count_of(size: u64) -> int {
    if size < SMALL_FILE_LIMIT {
        1
    } else if size < MEDIUM_FILE_LIMIT {
        4
    } else {
        8
    }
}

/// The number of parallel segments for a file of `file_size` bytes: 1 below
/// 20 MiB, 4 from 20 MiB and below 100 MiB, 8 from 100 MiB on.
pub fn get_segment_count(file_size: u64) -> (count: usize)
    ensures
        count == segment_count_of(file_size),
        file_size < 20 * MIB ==> count == 1,
        20 * MIB <= file_size < 100 * MIB ==> count == 4,
        file_size >= 100 * MIB ==> count == 8,
{
    if file_size < SMALL_FILE_LIMIT {
        1
    } else if file_size < MEDIUM_FILE_LIMIT {
        4
    } else {
        8
    }
}

/// A byte range of one file, fetched on its own.
#[derive(Clone, Copy, Debug, PartialEq, Eq, Structural)]
pub struct DownloadSegment {
    /// Offset of the first byte.
    pub start: u64,
    /// Offset of the last byte (inclusive).
    pub end: u64,
    /// Bytes of this segment already on disk when a fetch begins. The engine
    /// resumes by whole segments and leaves this at zero.
    pub downloaded: u64,
    /// Whether every byte of the segment has been written.
    pub completed: bool,
}

impl DownloadSegment {
    /// The number of bytes in the range.
    pub open spec fn span(self) -> int {
        self.end - self.start + 1
    }

    /// Byte `offset` of the file lies in this range.
    pub open spec fn holds(self, offset: int) -> bool {
        self.start <= offset <= self.end
    }

    /// The offset at which a fetch of this segment begins.
    pub open spec fn resume_offset(self) -> int {
        self.start + self.downloaded
    }
}

/// The record of one large download in flight.
#[derive(Debug)]
pub struct DownloadMetadata {
    pub url: String,
    pub file_name: String,
    pub total_size: u64,
    pub downloaded_bytes: u64,
    pub checksum: Option<String>,
    pub timestamp: u64,
    pub segments: Vec<DownloadSegment>,
}

/// The mathematical content of a `DownloadMetadata`.
pub struct MetadataView {
    pub url: Seq<char>,
    pub file_name: Seq<char>,
    pub total_size: u64,
    pub downloaded_bytes: u64,
    pub checksum: Option<Seq<char>>,
    pub timestamp: u64,
    pub segments: Seq<DownloadSegment>,
}

impl View for DownloadMetadata {
    type V = MetadataView;

    open spec fn view(&self) -> MetadataView {
        MetadataView {
            url: self.url@,
            file_name: self.file_name@,
            total_size: self.total_size,
            downloaded_bytes: self.downloaded_bytes,
            checksum: match self.checksum {
                Some(c) => Some(c@),
                None => None,
            },
            timestamp: self.timestamp,
            segments: self.segments@,
        }
    }
}

/// The segments split `[0, total)` into consecutive ranges without gap or
/// overlap, each of at least one byte, the last ending at `total - 1`.
pub open spec fn is_partition(segments: Seq<DownloadSegment>, total: u64) -> bool {
    &&& segments.len() > 0
    &&& segments[0].start == 0
    &&& segments.last().end == total - 1
    &&& forall|i: int| 0 <= i < segments.len() ==> (#[trigger] segments[i]).start <= segments[i].end
    &&& forall|i: int|
        0 <= i < segments.len() - 1 ==> (#[trigger] segments[i + 1]).start == segments[i].end + 1
}

/// No segment claims more bytes on disk than it has.
pub open spec fn progress_within_segments(segments: Seq<DownloadSegment>) -> bool {
    forall|i: int|
        0 <= i < segments.len() ==> (#[trigger] segments[i]).downloaded <= segments[i].span()
}

impl MetadataView {
    /// The record is one that the engine can resume from.
    pub open spec fn wf(self) -> bool {
        &&& is_partition(self.segments, self.total_size)
        &&& progress_within_segments(self.segments)
    }
}

/// The bytes per segment before the last, which takes the remainder too.
pub open spec fn segment_size_of(total: u64) -> int {
    total as int / segment_count_of(total)
}

/// Segment `i` of the plan for a file of `total` bytes.
pub open spec fn planned_segment(total: u64, i: int) -> DownloadSegment {
    DownloadSegment {
        start: (i * segment_size_of(total)) as u64,
        end: if i == segment_count_of(total) - 1 {
            (total - 1) as u64
        } else {
            ((i + 1) * segment_size_of(total) - 1) as u64
        },
        downloaded: 0,
        completed: false,
    }
}

/// The plan for a file of `total` bytes.
pub open spec fn planned_segments(total: u64) -> Seq<DownloadSegment> {
    Seq::new(segment_count_of(total) as nat, |i: int| planned_segment(total, i))
}

/// The record of a download of `total` bytes that has not fetched anything.
pub open spec fn fresh_metadata(
    url: Seq<char>,
    file_name: Seq<char>,
    total: u64,
    checksum: Option<Seq<char>>,
    timestamp: u64,
) -> MetadataView {
    MetadataView {
        url,
        file_name,
        total_size: total,
        downloaded_bytes: 0,
        checksum,
        timestamp,
        segments: planned_segments(total),
    }
}

/// Bounds of the planned segments: each starts where it should and all lie
/// inside the file.
pub proof fn lemma_planned_bounds(total: u64, i: int)
    requires
        total > 0,
        0 <= i < segment_count_of(total),
    ensures
        0 <= i * segment_size_of(total) <= total - 1,
        i < segment_count_of(total) - 1 ==> i * segment_size_of(total) <= (i + 1)
            * segment_size_of(total) - 1 <= total - 1,
        (i + 1) * segment_size_of(total) == i * segment_size_of(total) + segment_size_of(total),
        segment_count_of(total) > 1 ==> segment_size_of(total) > 0,
{
    let n = segment_count_of(total);
    let size = segment_size_of(total);
    if n == 1 {
        assert(size == total as int / 1);
        assert(size * n == size * 1);
    } else if n == 4 {
        assert(size == total as int / 4);
        assert(size * n == size * 4);
    } else {
        assert(size == total as int / 8);
        assert(size * n == size * 8);
    }
    assert(size * n <= total);
    assert(n > 1 ==> size > 0);
    assert((i + 1) * size == i * size + size) by (nonlinear_arith);
    assert(0 <= i * size) by (nonlinear_arith)
        requires
            0 <= i,
            0 <= size,
    ;
    if i < n - 1 {
        assert((i + 1) * size <= (n - 1) * size) by (nonlinear_arith)
            requires
                i + 1 <= n - 1,
                0 <= size,
        ;
        assert((n - 1) * size == size * n - size) by (nonlinear_arith);
    } else {
        assert((n - 1) * size == size * n - size) by (nonlinear_arith);
    }
}

/// The plan for any file of at least one byte splits `[0, total)` into
/// consecutive ranges without gap or overlap, and ends at `total - 1`.
pub proof fn law_plan_is_partition(total: u64)
    requires
        total > 0,
    ensures
        is_partition(planned_segments(total), total),
        progress_within_segments(planned_segments(total)),
        planned_segments(total).len() == segment_count_of(total),
        planned_segments(total).last().end == total - 1,
{
    let segs = planned_segments(total);
    let n = segment_count_of(total);
    lemma_planned_bounds(total, 0);
    lemma_planned_bounds(total, n - 1);
    assert forall|i: int| 0 <= i < segs.len() implies (#[trigger] segs[i]).start <= segs[i].end
        && segs[i].downloaded <= segs[i].span() by {
        lemma_planned_bounds(total, i);
    }
    assert forall|i: int| 0 <= i < segs.len() - 1 implies (#[trigger] segs[i + 1]).start
        == segs[i].end + 1 by {
        lemma_planned_bounds(total, i);
        lemma_planned_bounds(total, i + 1);
    }
}

/// In a partition a later segment starts after an earlier one ends.
pub proof fn lemma_partition_ordered(segments: Seq<DownloadSegment>, total: u64, i: int, j: int)
    requires
        is_partition(segments, total),
        0 <= i < j < segments.len(),
    ensures
        segments[i].end < segments[j].start,
    decreases j - i,
{
    if j == i + 1 {
        assert(segments[i + 1].start == segments[i].end + 1);
    } else {
        lemma_partition_ordered(segments, total, i, j - 1);
        assert(segments[(j - 1) + 1].start == segments[j - 1].end + 1);
        assert(segments[j - 1].start <= segments[j - 1].end);
    }
}

/// Every segment of a partition lies inside the file.
pub proof fn lemma_segment_within_file(segments: Seq<DownloadSegment>, total: u64, i: int)
    requires
        is_partition(segments, total),
        0 <= i < segments.len(),
    ensures
        segments[i].start <= segments[i].end <= total - 1,
{
    if i < segments.len() - 1 {
        lemma_partition_ordered(segments, total, i, segments.len() - 1);
        assert(segments[segments.len() - 1].start <= segments[segments.len() - 1].end);
    }
}

/// In a partition of `[0, total)`, every byte of the file lies in exactly one
/// segment.
pub proof fn law_partition_covers_each_byte_once(
    segments: Seq<DownloadSegment>,
    total: u64,
    offset: int,
)
    requires
        is_partition(segments, total),
        0 <= offset < total,
    ensures
        exists|i: int| 0 <= i < segments.len() && (#[trigger] segments[i]).holds(offset),
        forall|i: int, j: int|
            0 <= i < segments.len() && 0 <= j < segments.len() && (#[trigger] segments[i]).holds(
                offset,
            ) && (#[trigger] segments[j]).holds(offset) ==> i == j,
{
    lemma_some_segment_holds(segments, total, offset, segments.len() - 1);
    assert forall|i: int, j: int|
        0 <= i < segments.len() && 0 <= j < segments.len() && (#[trigger] segments[i]).holds(
            offset,
        ) && (#[trigger] segments[j]).holds(offset) implies i == j by {
        if i < j {
            lemma_partition_ordered(segments, total, i, j);
        } else if j < i {
            lemma_partition_ordered(segments, total, j, i);
        }
    }
}

/// A byte at or before the end of segment `upto` lies in one of the segments
/// up to it.
proof fn lemma_some_segment_holds(
    segments: Seq<DownloadSegment>,
    total: u64,
    offset: int,
    upto: int,
)
    requires
        is_partition(segments, total),
        0 <= upto < segments.len(),
        0 <= offset <= segments[upto].end,
    ensures
        exists|i: int| 0 <= i < segments.len() && (#[trigger] segments[i]).holds(offset),
    decreases upto,
{
    if segments[upto].start <= offset {
        assert(segments[upto].holds(offset));
    } else {
        assert(upto > 0);
        assert(segments[(upto - 1) + 1].start == segments[upto - 1].end + 1);
        lemma_some_segment_holds(segments, total, offset, upto - 1);
    }
}

impl Clone for DownloadMetadata {
    fn clone(&self) -> (copy: Self)
        ensures
            copy@ == self@,
    {
        let segments = self.segments.clone();
        assert(segments@ =~= self.segments@);
        DownloadMetadata {
            url: self.url.clone(),
            file_name: self.file_name.clone(),
            total_size: self.total_size,
            downloaded_bytes: self.downloaded_bytes,
            checksum: clone_text(&self.checksum),
            timestamp: self.timestamp,
            segments,
        }
    }
}

impl DownloadMetadata {
    /// Whether the record is one that the engine can resume from: its
    /// segments split `[0, total_size)` and none claims more than it has.
    pub fn is_well_formed(&self) -> (ok: bool)
        ensures
            ok == self@.wf(),
    {
        let n: usize = self.segments.len();
        if n == 0 || self.total_size == 0 {
            return false;
        }
        if self.segments[0].start != 0 || self.segments[n - 1].end != self.total_size - 1 {
            return false;
        }
        let mut i: usize = 0;
        while i < n
            invariant
                n == self.segments@.len(),
                i <= n,
                forall|k: int| 0 <= k < i ==> (#[trigger] self.segments@[k]).start <= self.segments@[k].end,
                forall|k: int|
                    0 <= k < i ==> (#[trigger] self.segments@[k]).downloaded <= self.segments@[k].span(),
                forall|k: int|
                    0 <= k < i && k < n - 1 ==> (#[trigger] self.segments@[k + 1]).start
                        == self.segments@[k].end + 1,
            decreases n - i,
        {
            let seg = self.segments[i];
            if seg.start > seg.end {
                return false;
            }
            if seg.downloaded > seg.end - seg.start && seg.downloaded - (seg.end - seg.start) > 1 {
                return false;
            }
            if i + 1 < n {
                let next = self.segments[i + 1];
                if seg.end == u64::MAX || next.start != seg.end + 1 {
                    assert(self.segments@[i + 1].start != self.segments@[i as int].end + 1);
                    return false;
                }
            }
            i += 1;
        }
        true
    }
}

/// Plans the segments of a file of `total_size` bytes.
pub fn plan_segments(total_size: u64) -> (segments: Vec<DownloadSegment>)
    requires
        total_size > 0,
    ensures
        segments@ == planned_segments(total_size),
        is_partition(segments@, total_size),
{
    let segment_count: usize = get_segment_count(total_size);
    let segment_size: u64 = total_size / (segment_count as u64);
    let mut segments: Vec<DownloadSegment> = Vec::new();
    let mut i: usize = 0;
    while i < segment_count
        invariant
            total_size > 0,
            segment_count == segment_count_of(total_size),
            segment_size == segment_size_of(total_size),
            i <= segment_count,
            segments@.len() == i,
            forall|k: int| 0 <= k < i ==> segments@[k] == planned_segment(total_size, k),
        decreases segment_count - i,
    {
        proof {
            lemma_planned_bounds(total_size, i as int);
        }
        let start: u64 = (i as u64) * segment_size;
        let end: u64 = if i == segment_count - 1 {
            total_size - 1
        } else {
            (i as u64 + 1) * segment_size - 1
        };
        segments.push(DownloadSegment { start, end, downloaded: 0, completed: false });
        i += 1;
    }
    proof {
        assert(segments@ =~= planned_segments(total_size));
        law_plan_is_partition(total_size);
    }
    segments
}

/// The record of a download that starts now, at the given time stamp: the
/// fresh plan for `total_size`, nothing fetched.
pub fn new_metadata_at(
    url: &str,
    file_name: &str,
    total_size: u64,
    checksum: Option<&str>,
    timestamp: u64,
) -> (metadata: DownloadMetadata)
    requires
        total_size > 0,
    ensures
        metadata@ == fresh_metadata(
            url@,
            file_name@,
            total_size,
            opt_text(checksum),
            timestamp,
        ),
        metadata@.wf(),
{
    proof {
        law_plan_is_partition(total_size);
    }
    DownloadMetadata {
        url: url.to_string(),
        file_name: file_name.to_string(),
        total_size,
        downloaded_bytes: 0,
        checksum: owned_text(checksum),
        timestamp,
        segments: plan_segments(total_size),
    }
}

/// The record of a download that starts now: the fresh plan for
/// `total_size`, nothing fetched, stamped with the current time.
pub fn create_new_metadata(
    url: &str,
    file_name: &str,
    total_size: u64,
    checksum: Option<&str>,
) -> (metadata: DownloadMetadata)
    requires
        total_size > 0,
    ensures
        metadata@ == fresh_metadata(
            url@,
            file_name@,
            total_size,
            opt_text(checksum),
            metadata.timestamp,
        ),
        metadata@.wf(),
{
    new_metadata_at(url, file_name, total_size, checksum, unix_time_secs())
}

} // verus!
