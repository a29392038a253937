use mod_manager_core::download::{
    infer_filename, join_path, percent_of, ModDownloadResult, Orchestrator, QUEUE_CAPACITY,
};

fn assert_in_progress(r: &ModDownloadResult, expected: u8) {
    match r {
        ModDownloadResult::InProgress(p) => assert_eq!(*p, expected),
        other => panic!("expected InProgress({expected}), got {other:?}"),
    }
}

fn assert_completed_ending(r: &ModDownloadResult, suffix: &str) {
    match r {
        ModDownloadResult::Completed(p) => assert!(p.ends_with(suffix), "path {p:?}"),
        other => panic!("expected Completed(..{suffix}), got {other:?}"),
    }
}

#[test]
fn percent_rounds_half_up() {
    assert_eq!(percent_of(0, 10), 0);
    assert_eq!(percent_of(5, 10), 50);
    assert_eq!(percent_of(10, 10), 100);
    assert_eq!(percent_of(3, 10), 30);
    assert_eq!(percent_of(1, 3), 33);
    assert_eq!(percent_of(2, 3), 67);
    assert_eq!(percent_of(1, 200), 1);
    assert_eq!(percent_of(1, 201), 0);
}

#[test]
fn filename_is_last_path_segment() {
    assert_eq!(infer_filename("/mods/files/foo.zip"), "foo.zip");
    assert_eq!(infer_filename("bare-name.zip"), "bare-name.zip");
}

#[test]
fn empty_segment_falls_back_to_default_name() {
    assert_eq!(infer_filename("/mods/files/"), "unknown.zip");
    assert_eq!(infer_filename("/"), "unknown.zip");
    assert_eq!(infer_filename(""), "unknown.zip");
}

#[test]
fn join_path_inserts_one_separator() {
    assert_eq!(join_path("/data/downloads", "foo.zip"), "/data/downloads/foo.zip");
}

#[test]
fn submission_seeds_in_progress_zero() {
    let mut o = Orchestrator::new();
    let t = o.try_queue_download("m1".to_string(), "http://x/a.zip".to_string()).unwrap();
    assert_eq!(t, 0);
    assert_in_progress(o.status_of(t), 0);
}

#[test]
fn queue_refuses_submissions_past_capacity() {
    let mut o = Orchestrator::new();
    for i in 0..QUEUE_CAPACITY {
        assert!(o.try_queue_download(format!("m{i}"), "u".to_string()).is_some());
    }
    assert!(o.try_queue_download("overflow".to_string(), "u".to_string()).is_none());
    assert_eq!(o.pending_count(), QUEUE_CAPACITY);
}

#[test]
fn three_downloads_complete_in_submission_order() {
    let mut o = Orchestrator::new();
    let ta = o.try_queue_download("a".to_string(), "http://x/a.zip".to_string()).unwrap();
    let tb = o.try_queue_download("b".to_string(), "http://x/b.zip".to_string()).unwrap();
    let tc = o.try_queue_download("c".to_string(), "http://x/c.zip".to_string()).unwrap();
    assert_eq!((ta, tb, tc), (0, 1, 2));

    let (t, q) = o.start_next().unwrap();
    assert_eq!((t, q.mod_id.as_str()), (0, "a"));
    o.connected(Some(4));
    o.chunk_received(4);
    o.download_completed("/d/a.zip".to_string());

    // The first terminal state is observed before the second download starts.
    assert_completed_ending(o.status_of(0), "a.zip");
    assert_in_progress(o.status_of(1), 0);
    assert_in_progress(o.status_of(2), 0);

    let (t, q) = o.start_next().unwrap();
    assert_eq!((t, q.mod_id.as_str()), (1, "b"));
    o.connected(Some(4));
    o.chunk_received(4);
    o.download_completed("/d/b.zip".to_string());

    let (t, q) = o.start_next().unwrap();
    assert_eq!((t, q.mod_id.as_str()), (2, "c"));
    o.connected(Some(4));
    o.chunk_received(4);
    o.download_completed("/d/c.zip".to_string());

    assert_completed_ending(o.status_of(0), "a.zip");
    assert_completed_ending(o.status_of(1), "b.zip");
    assert_completed_ending(o.status_of(2), "c.zip");
    assert!(o.start_next().is_none());
}

#[test]
fn known_total_reaches_exactly_hundred() {
    let mut o = Orchestrator::new();
    let t = o.try_queue_download("m".to_string(), "u".to_string()).unwrap();
    o.start_next().unwrap();
    o.connected(Some(10));
    assert_eq!(o.chunk_received(3), Some(30));
    assert_eq!(o.chunk_received(7), Some(100));
    o.download_completed("/d/m.zip".to_string());
    assert_completed_ending(o.status_of(t), "m.zip");
}

#[test]
fn unknown_total_publishes_no_intermediate_progress() {
    let mut o = Orchestrator::new();
    let t = o.try_queue_download("m".to_string(), "u".to_string()).unwrap();
    o.start_next().unwrap();
    o.connected(None);
    assert_eq!(o.chunk_received(512), None);
    assert_in_progress(o.status_of(t), 0);
    o.download_completed("/d/m.zip".to_string());
    assert_completed_ending(o.status_of(t), "m.zip");
}

#[test]
fn connect_failure_is_terminal_for_that_download_only() {
    let mut o = Orchestrator::new();
    let ta = o.try_queue_download("a".to_string(), "http://down/a.zip".to_string()).unwrap();
    let tb = o.try_queue_download("b".to_string(), "http://up/b.zip".to_string()).unwrap();

    o.start_next().unwrap();
    o.download_failed("connection refused".to_string());
    match o.status_of(ta) {
        ModDownloadResult::Failed(reason) => assert_eq!(reason, "connection refused"),
        other => panic!("expected Failed, got {other:?}"),
    }

    // The failure does not prevent the next queued item from running.
    let (t, q) = o.start_next().unwrap();
    assert_eq!((t, q.mod_id.as_str()), (1, "b"));
    o.connected(Some(1));
    o.chunk_received(1);
    o.download_completed("/d/b.zip".to_string());
    assert_completed_ending(o.status_of(tb), "b.zip");
    match o.status_of(ta) {
        ModDownloadResult::Failed(_) => {}
        other => panic!("first download should stay Failed, got {other:?}"),
    }
}

#[test]
fn write_failure_mid_stream_is_terminal() {
    let mut o = Orchestrator::new();
    let t = o.try_queue_download("m".to_string(), "u".to_string()).unwrap();
    o.start_next().unwrap();
    o.connected(Some(100));
    assert_eq!(o.chunk_received(50), Some(50));
    o.download_failed("disk full".to_string());
    match o.status_of(t) {
        ModDownloadResult::Failed(reason) => assert_eq!(reason, "disk full"),
        other => panic!("expected Failed, got {other:?}"),
    }
}

#[test]
fn end_to_end_two_chunk_download() {
    // A 10-byte body with advertised length 10, delivered in two 5-byte
    // chunks: InProgress(0) -> InProgress(50) -> InProgress(100) ->
    // Completed(path ending in the inferred filename).
    let mut o = Orchestrator::new();
    let t = o
        .try_queue_download("53461".to_string(), "http://host/mods/files/foo.zip".to_string())
        .unwrap();
    assert_in_progress(o.status_of(t), 0);

    let (_, q) = o.start_next().unwrap();
    o.connected(Some(10));

    assert_eq!(o.chunk_received(5), Some(50));
    assert_in_progress(o.status_of(t), 50);
    assert_eq!(o.chunk_received(5), Some(100));
    assert_in_progress(o.status_of(t), 100);

    let fname = infer_filename("/mods/files/foo.zip");
    let dest = join_path("/data/local/downloads", &fname);
    o.download_completed(dest);
    assert_completed_ending(o.status_of(t), "/foo.zip");
    assert_eq!(q.url, "http://host/mods/files/foo.zip");
}

#[test]
fn overdelivery_is_clamped_to_hundred() {
    let mut o = Orchestrator::new();
    o.try_queue_download("m".to_string(), "u".to_string()).unwrap();
    o.start_next().unwrap();
    o.connected(Some(4));
    assert_eq!(o.chunk_received(4), Some(100));
    assert_eq!(o.chunk_received(4), Some(100));
}
