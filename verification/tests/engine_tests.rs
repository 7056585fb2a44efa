use dropout_core::engine::{
    accepts_status, begin_transfer, conclude, end_actions, every_segment_completed, outcome_of,
    partial_path, pending_requests, range_header, record_completed, resume_or_plan, run_error,
    settle, sidecar_path, worker_limit, FileAction, RangeRequest, SegmentFailure, SegmentOutcome,
    SegmentPhase, SegmentWorker, TransferError, Verdict, WorkerAction,
};
use dropout_core::integrity::compute_sha256;
use dropout_core::plan::{new_metadata_at, DownloadMetadata, DownloadSegment, MIB};

fn with_completed(total: u64, done: &[usize]) -> DownloadMetadata {
    let mut m = new_metadata_at("http://host/big.tar.gz", "big.tar.gz", total, None, 1);
    for i in done {
        m.segments[*i].completed = true;
    }
    m
}

#[test]
fn fresh_plan_requests_every_segment() {
    let m = with_completed(150 * MIB, &[]);
    let reqs = pending_requests(&m);
    assert_eq!(reqs.len(), 8);
    for (i, r) in reqs.iter().enumerate() {
        assert_eq!(r.index, i);
        assert_eq!(r.first, m.segments[i].start);
        assert_eq!(r.last, m.segments[i].end);
    }
}

#[test]
fn resume_requests_only_the_incomplete_segments() {
    // 150 MiB plans 8 segments; 3 are complete when the process restarts
    let total = 150 * MIB;
    let size = total / 8;
    let m = with_completed(total, &[0, 1, 2]);
    let reqs = pending_requests(&m);
    assert_eq!(reqs.len(), 5);
    let expected: Vec<RangeRequest> = (3..8)
        .map(|i| RangeRequest {
            index: i,
            first: i as u64 * size,
            last: (i as u64 + 1) * size - 1,
        })
        .collect();
    assert_eq!(reqs, expected);
    assert_eq!(range_header(&reqs[0]), format!("bytes={}-{}", 3 * size, 4 * size - 1));
}

#[test]
fn resume_with_scattered_completed_segments() {
    let m = with_completed(30 * MIB, &[1, 3]);
    let reqs = pending_requests(&m);
    assert_eq!(reqs.iter().map(|r| r.index).collect::<Vec<_>>(), vec![0, 2]);
    let all = with_completed(30 * MIB, &[0, 1, 2, 3]);
    assert!(pending_requests(&all).is_empty());
    assert!(every_segment_completed(&all));
    assert!(!every_segment_completed(&m));
}

#[test]
fn request_starts_at_the_resume_offset() {
    let mut m = with_completed(1000, &[]);
    m.segments[0].downloaded = 400;
    let reqs = pending_requests(&m);
    assert_eq!(reqs, vec![RangeRequest { index: 0, first: 400, last: 999 }]);
}

#[test]
fn range_header_is_decimal() {
    assert_eq!(range_header(&RangeRequest { index: 0, first: 0, last: 0 }), "bytes=0-0");
    assert_eq!(
        range_header(&RangeRequest { index: 0, first: 1048576, last: 2097151 }),
        "bytes=1048576-2097151"
    );
    assert_eq!(
        range_header(&RangeRequest { index: 0, first: 10, last: u64::MAX }),
        "bytes=10-18446744073709551615"
    );
}

#[test]
fn worker_limit_is_the_segment_count_up_to_eight() {
    assert_eq!(worker_limit(0), 0);
    assert_eq!(worker_limit(1), 1);
    assert_eq!(worker_limit(4), 4);
    assert_eq!(worker_limit(8), 8);
    assert_eq!(worker_limit(9), 8);
    assert_eq!(worker_limit(usize::MAX), 8);
}

#[test]
fn success_codes_are_accepted() {
    assert!(accepts_status(200));
    assert!(accepts_status(206));
    assert!(accepts_status(299));
    assert!(!accepts_status(199));
    assert!(!accepts_status(300));
    assert!(!accepts_status(404));
    assert!(!accepts_status(416));
    assert!(!accepts_status(500));
}

#[test]
fn sidecar_lies_beside_the_partial_file() {
    assert_eq!(partial_path("/java/jdk.tar.gz"), "/java/jdk.tar.gz.part");
    assert_eq!(sidecar_path("/java/jdk.tar.gz"), "/java/jdk.tar.gz.part.meta");
    assert_eq!(partial_path("java"), "java.part");
}

#[test]
fn resume_or_plan_keeps_a_sound_record() {
    let found = with_completed(150 * MIB, &[0, 5]);
    let kept = resume_or_plan(Some(found.clone()), "other", "other", 7, Some("x"));
    assert_eq!(kept.segments, found.segments);
    assert_eq!(kept.url, found.url);
    assert_eq!(kept.total_size, 150 * MIB);
    assert_eq!(kept.timestamp, 1);
}

#[test]
fn resume_or_plan_replaces_an_unsound_record() {
    let mut found = with_completed(150 * MIB, &[0, 5]);
    found.segments[3].start += 1;
    let fresh = resume_or_plan(Some(found), "url", "name", 1000, Some("x"));
    assert_eq!(fresh.url, "url");
    assert_eq!(fresh.file_name, "name");
    assert_eq!(fresh.total_size, 1000);
    assert_eq!(fresh.checksum.as_deref(), Some("x"));
    assert_eq!(fresh.downloaded_bytes, 0);
    assert_eq!(
        fresh.segments,
        vec![DownloadSegment { start: 0, end: 999, downloaded: 0, completed: false }]
    );
}

#[test]
fn resume_or_plan_plans_afresh_without_a_record() {
    let fresh = resume_or_plan(None, "url", "name", 20 * MIB, None);
    assert_eq!(fresh.segments.len(), 4);
    assert!(fresh.segments.iter().all(|s| !s.completed && s.downloaded == 0));
    assert!(fresh.timestamp > 1_600_000_000);
}

#[test]
fn worker_runs_from_request_to_finish() {
    let mut w = SegmentWorker::new(RangeRequest { index: 2, first: 100, last: 199 });
    assert_eq!(w.phase, SegmentPhase::Pending);
    assert_eq!(
        w.start(false),
        WorkerAction::Request(RangeRequest { index: 2, first: 100, last: 199 })
    );
    assert_eq!(w.phase, SegmentPhase::InProgress);
    assert_eq!(w.on_response(206), WorkerAction::ReadChunk);
    assert_eq!(w.on_chunk(60, false), WorkerAction::Write { offset: 100, len: 60 });
    assert_eq!(w.on_chunk(40, false), WorkerAction::Write { offset: 160, len: 40 });
    assert_eq!(w.position, 200);
    let last = w.on_end();
    assert_eq!(last, WorkerAction::Finish { index: 2 });
    assert_eq!(w.phase, SegmentPhase::Completed);
    assert_eq!(outcome_of(last), Some(SegmentOutcome::Completed(2)));
}

#[test]
fn worker_stops_before_the_request_when_cancelled() {
    let mut w = SegmentWorker::new(RangeRequest { index: 0, first: 0, last: 9 });
    let action = w.start(true);
    assert_eq!(action, WorkerAction::Abort(SegmentFailure::Cancelled));
    assert_eq!(w.phase, SegmentPhase::Stopped);
    assert_eq!(outcome_of(action), Some(SegmentOutcome::Cancelled));
}

#[test]
fn worker_stops_at_the_next_chunk_when_cancelled() {
    let mut w = SegmentWorker::new(RangeRequest { index: 1, first: 50, last: 99 });
    w.start(false);
    w.on_response(200);
    assert_eq!(w.on_chunk(10, false), WorkerAction::Write { offset: 50, len: 10 });
    // the signal is set: the very next chunk is not written
    let action = w.on_chunk(10, true);
    assert_eq!(action, WorkerAction::Abort(SegmentFailure::Cancelled));
    assert_eq!(w.position, 60);
    assert_ne!(w.phase, SegmentPhase::Completed);
    assert_eq!(outcome_of(action), Some(SegmentOutcome::Cancelled));
}

#[test]
fn worker_gives_up_on_a_refusing_server() {
    let mut w = SegmentWorker::new(RangeRequest { index: 1, first: 50, last: 99 });
    w.start(false);
    let action = w.on_response(416);
    assert_eq!(action, WorkerAction::Abort(SegmentFailure::Rejected));
    assert_eq!(w.phase, SegmentPhase::Stopped);
    assert_eq!(outcome_of(action), Some(SegmentOutcome::Failed));
}

#[test]
fn worker_reports_stream_and_file_failures() {
    let mut w = SegmentWorker::new(RangeRequest { index: 1, first: 50, last: 99 });
    w.start(false);
    assert_eq!(w.on_error(SegmentFailure::Network), WorkerAction::Abort(SegmentFailure::Network));
    assert_eq!(w.phase, SegmentPhase::Stopped);
    let mut w = SegmentWorker::new(RangeRequest { index: 1, first: u64::MAX - 5, last: u64::MAX });
    w.start(false);
    w.on_response(206);
    assert_eq!(w.on_chunk(5, false), WorkerAction::Write { offset: u64::MAX - 5, len: 5 });
    assert_eq!(w.on_chunk(1, false), WorkerAction::Abort(SegmentFailure::Io));
    assert_eq!(outcome_of(WorkerAction::ReadChunk), None);
}

#[test]
fn settle_marks_completed_segments_and_is_ready() {
    let mut m = with_completed(30 * MIB, &[0]);
    let outcomes = [
        SegmentOutcome::Completed(3),
        SegmentOutcome::Completed(1),
        SegmentOutcome::Completed(2),
    ];
    let verdict = settle(&mut m, &outcomes, 777);
    assert_eq!(verdict, Verdict::ReadyToVerify);
    assert!(m.segments.iter().all(|s| s.completed));
    assert_eq!(m.downloaded_bytes, 777);
    assert!(run_error(verdict, &m).is_none());
}

#[test]
fn settle_keeps_completed_segments_of_a_failed_run() {
    let mut m = with_completed(150 * MIB, &[0]);
    let outcomes = [
        SegmentOutcome::Completed(1),
        SegmentOutcome::Failed,
        SegmentOutcome::Completed(3),
        SegmentOutcome::Panicked,
        SegmentOutcome::Completed(5),
        SegmentOutcome::Failed,
        SegmentOutcome::Completed(7),
    ];
    let before = m.clone();
    let verdict = settle(&mut m, &outcomes, 42);
    assert_eq!(verdict, Verdict::PartialFailure);
    let done: Vec<bool> = m.segments.iter().map(|s| s.completed).collect();
    assert_eq!(done, vec![true, true, false, true, false, true, false, true]);
    for (a, b) in before.segments.iter().zip(m.segments.iter()) {
        assert_eq!((a.start, a.end, a.downloaded), (b.start, b.end, b.downloaded));
    }
    assert!(m.is_well_formed());
    match run_error(verdict, &m) {
        Some(TransferError::PartialFailure(left)) => assert_eq!(left, vec![2, 4, 6]),
        other => panic!("unexpected {:?}", other),
    }
    // a retry asks for the three that are left, and for them only
    assert_eq!(pending_requests(&m).len(), 3);
}

#[test]
fn settle_of_a_cancelled_run_leaves_a_record_to_resume_from() {
    let mut m = with_completed(150 * MIB, &[]);
    let outcomes = [
        SegmentOutcome::Completed(0),
        SegmentOutcome::Cancelled,
        SegmentOutcome::Completed(2),
        SegmentOutcome::Cancelled,
        SegmentOutcome::Failed,
        SegmentOutcome::Cancelled,
        SegmentOutcome::Cancelled,
        SegmentOutcome::Cancelled,
    ];
    let verdict = settle(&mut m, &outcomes, 5000);
    assert_eq!(verdict, Verdict::Cancelled);
    assert!(m.is_well_formed());
    assert_eq!(m.downloaded_bytes, 5000);
    assert!(m.segments[0].completed && m.segments[2].completed);
    assert!(!m.segments[1].completed);
    let error = run_error(verdict, &m).unwrap();
    assert_eq!(error.message(), "Download cancelled");
    let result: Result<(), TransferError> = Err(error);
    assert_eq!(end_actions(&result), vec![FileAction::StoreRecord]);
    // the stored record is taken as it is by the next attempt
    let resumed = resume_or_plan(Some(m.clone()), "x", "y", 1, None);
    assert_eq!(resumed.segments, m.segments);
    assert_eq!(pending_requests(&resumed).len(), 6);
}

#[test]
fn settle_ignores_an_outcome_that_names_no_segment() {
    let mut m = with_completed(1000, &[]);
    let verdict = settle(&mut m, &[SegmentOutcome::Completed(7)], 0);
    assert_eq!(verdict, Verdict::PartialFailure);
    assert!(!m.segments[0].completed);
}

#[test]
fn settle_without_outcomes_on_a_complete_record_is_ready() {
    let mut m = with_completed(1000, &[0]);
    assert_eq!(settle(&mut m, &[], 1000), Verdict::ReadyToVerify);
}

#[test]
fn conclude_accepts_matching_content() {
    let data = b"the whole file";
    let hash = compute_sha256(data);
    assert!(conclude(Some(&hash), data).is_ok());
    assert!(conclude(None, data).is_ok());
    let ok: Result<(), TransferError> = Ok(());
    assert_eq!(end_actions(&ok), vec![FileAction::CommitPartial, FileAction::RemoveRecord]);
}

#[test]
fn checksum_mismatch_discards_partial_file_and_record() {
    let data = b"the whole file";
    let hash = compute_sha256(b"another file");
    let result = conclude(Some(&hash), data);
    match &result {
        Err(TransferError::ChecksumMismatch) => {}
        other => panic!("unexpected {:?}", other),
    }
    assert_eq!(result.as_ref().unwrap_err().message(), "Checksum verification failed");
    assert_eq!(end_actions(&result), vec![FileAction::RemovePartial, FileAction::RemoveRecord]);
    // with the record gone, the retry starts from a fresh plan
    let retry = resume_or_plan(None, "u", "f", 150 * MIB, Some(&hash));
    assert_eq!(retry.downloaded_bytes, 0);
    assert_eq!(pending_requests(&retry).len(), 8);
    assert!(retry.segments.iter().all(|s| !s.completed && s.downloaded == 0));
}

#[test]
fn error_messages() {
    assert_eq!(TransferError::Cancelled.message(), "Download cancelled");
    assert_eq!(TransferError::ChecksumMismatch.message(), "Checksum verification failed");
    assert_eq!(TransferError::PartialFailure(vec![1]).message(), "Some segments failed");
    assert_eq!(TransferError::Network(String::from("Request failed: x")).message(), "Request failed: x");
    assert_eq!(TransferError::Io(String::from("Seek error: y")).message(), "Seek error: y");
    let io: Result<(), TransferError> = Err(TransferError::Io(String::from("z")));
    assert!(end_actions(&io).is_empty());
    let net: Result<(), TransferError> = Err(TransferError::Network(String::from("z")));
    assert!(end_actions(&net).is_empty());
    let partial: Result<(), TransferError> = Err(TransferError::PartialFailure(vec![0]));
    assert_eq!(end_actions(&partial), vec![FileAction::StoreRecord]);
}

#[test]
fn a_fresh_plan_is_stored_at_once() {
    let (fresh, actions) = begin_transfer(None, "u", "f", 150 * MIB, None);
    assert_eq!(actions, vec![FileAction::StoreRecord]);
    assert_eq!(fresh.segments.len(), 8);
    let (kept, actions) = begin_transfer(Some(fresh.clone()), "u", "f", 150 * MIB, None);
    assert!(actions.is_empty());
    assert_eq!(kept.segments, fresh.segments);
    let mut broken = fresh.clone();
    broken.segments.pop();
    let (again, actions) = begin_transfer(Some(broken), "u", "f", 1000, None);
    assert_eq!(actions, vec![FileAction::StoreRecord]);
    assert_eq!(again.segments.len(), 1);
}

#[test]
fn a_crash_after_three_segments_leaves_five_to_fetch() {
    // 150 MiB plans 8 segments; each completed segment is stored at once
    let total = 150 * MIB;
    let size = total / 8;
    let (mut running, _) = begin_transfer(None, "http://host/jdk.tar.gz", "jdk.tar.gz", total, None);
    let mut on_disk = running.clone();
    for (done, index) in [4usize, 0, 6].iter().enumerate() {
        let actions = record_completed(&mut running, *index, (done as u64 + 1) * size);
        assert_eq!(actions, vec![FileAction::StoreRecord]);
        on_disk = running.clone();
    }
    // the process is terminated here; the restart finds the record
    let (resumed, actions) = begin_transfer(Some(on_disk), "http://host/jdk.tar.gz", "jdk.tar.gz", total, None);
    assert!(actions.is_empty());
    assert_eq!(resumed.downloaded_bytes, 3 * size);
    let requests = pending_requests(&resumed);
    assert_eq!(requests.len(), 5);
    let expected: Vec<RangeRequest> = [1u64, 2, 3, 5, 7]
        .iter()
        .map(|i| RangeRequest { index: *i as usize, first: i * size, last: (i + 1) * size - 1 })
        .collect();
    assert_eq!(requests, expected);
}

#[test]
fn completing_a_segment_that_is_not_there_changes_no_segment() {
    let mut m = with_completed(1000, &[]);
    let actions = record_completed(&mut m, 3, 10);
    assert_eq!(actions, vec![FileAction::StoreRecord]);
    assert!(!m.segments[0].completed);
    assert_eq!(m.downloaded_bytes, 10);
}
