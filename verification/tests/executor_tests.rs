use zim_downloader::errors::DownloadError;
use zim_downloader::executor::{range_header_value, resolve_response, ExecRun};
use zim_downloader::repository::{ZimCategory, ZimEntry};
use zim_downloader::task::DownloadTask;

fn entry(url: &str, size: u64) -> ZimEntry {
    ZimEntry {
        id: "sample".to_string(),
        name: "Sample".to_string(),
        title: "A sample entry".to_string(),
        language: "en".to_string(),
        category: ZimCategory::Other,
        size,
        url: url.to_string(),
        mirrors: Vec::new(),
        date: None,
        sha256: None,
        article_count: None,
        media_count: None,
        repository: "kiwix".to_string(),
        tags: Vec::new(),
        flavor: None,
    }
}

// Six chunks of equal size spaced 20 ms apart: the progress
// recomputation fires at most once per 100 ms window, so at most twice
// in 120 ms and never once per chunk.
#[test]
fn recompute_throttled_to_100ms_windows() {
    let mut run = ExecRun::new(0, 600, 0);
    let mut samples = 0;
    for t in [20u64, 40, 60, 80, 100, 120] {
        if run.on_chunk(100, t).is_some() {
            samples += 1;
        }
    }
    assert!(samples <= 2);
    assert_eq!(samples, 1);
    assert_eq!(run.downloaded, 600);
}

#[test]
fn recompute_reports_speed_and_eta() {
    let mut run = ExecRun::new(0, 1_001_000, 0);
    let sample = run.on_chunk(1000, 100).expect("window elapsed");
    assert_eq!(sample.downloaded, 1000);
    assert_eq!(sample.total, 1_001_000);
    // 1000 bytes over 100 ms is 10000 bytes per second.
    assert_eq!(sample.speed, 10_000);
    // (1_001_000 - 1000) / 10_000 seconds remain.
    assert_eq!(sample.eta, Some(100));
}

#[test]
fn eta_absent_when_total_unknown() {
    let mut run = ExecRun::new(0, 0, 0);
    let sample = run.on_chunk(500, 200).expect("window elapsed");
    assert_eq!(sample.total, 0);
    assert_eq!(sample.eta, None);
}

#[test]
fn chunks_within_window_yield_no_sample() {
    let mut run = ExecRun::new(0, 100, 0);
    assert!(run.on_chunk(10, 50).is_none());
    assert!(run.on_chunk(10, 99).is_none());
    assert_eq!(run.downloaded, 20);
    assert_eq!(run.bytes_since_update, 20);
}

#[test]
fn range_header_only_when_resuming() {
    assert_eq!(range_header_value(0), None);
    assert_eq!(range_header_value(400), Some("bytes=400-".to_string()));
    assert_eq!(
        range_header_value(9_876_543_210),
        Some("bytes=9876543210-".to_string())
    );
}

#[test]
fn response_resolution_follows_status() {
    // Fresh transfer, full content: total is the reported length.
    assert_eq!(resolve_response(0, 200, Some(1000)), Ok(1000));
    // Length omitted: total stays unknown.
    assert_eq!(resolve_response(0, 200, None), Ok(0));
    // Resumed transfer answered with partial content.
    assert_eq!(resolve_response(400, 206, Some(600)), Ok(1000));
    // A range request answered with full content would corrupt the file.
    assert_eq!(
        resolve_response(400, 200, Some(1000)),
        Err(DownloadError::ProtocolViolation(200))
    );
    // Anything else is a transport failure.
    assert_eq!(
        resolve_response(0, 404, None),
        Err(DownloadError::TransportError(404))
    );
    assert_eq!(
        resolve_response(100, 500, Some(5)),
        Err(DownloadError::TransportError(500))
    );
}

#[test]
fn progress_is_percentage_of_total() {
    let mut t = DownloadTask::new("1".to_string(), entry("https://h/x/f.zim", 1000), "/dl");
    assert_eq!(t.progress(), 0);
    t.downloaded = 400;
    assert_eq!(t.progress(), 40);
    t.downloaded = 1000;
    assert_eq!(t.progress(), 100);
    t.downloaded = 1;
    t.total = 3;
    assert_eq!(t.progress(), 33);
    // Unknown total: progress cannot be computed and reads 0.
    t.total = 0;
    assert_eq!(t.progress(), 0);
}

#[test]
fn new_task_derives_path_from_url() {
    let t = DownloadTask::new("9".to_string(), entry("https://h/a/b/file.zim", 7), "/data/ZIM");
    assert_eq!(t.id, "9");
    assert_eq!(t.target_path, "/data/ZIM/file.zim");
    assert_eq!(t.total, 7);
    assert_eq!(t.downloaded, 0);
    assert!(t.started_at.is_none());
    assert!(t.error.is_none());
}
