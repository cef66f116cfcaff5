use zim_downloader::errors::DownloadError;
use zim_downloader::executor::{resolve_response, ExecRun, RunOutcome};
use zim_downloader::manager::{ChunkControl, DownloadManager};
use zim_downloader::repository::{ZimCategory, ZimEntry};
use zim_downloader::task::DownloadStatus;

fn entry(url: &str, size: u64) -> ZimEntry {
    ZimEntry {
        id: "sample".to_string(),
        name: "Sample".to_string(),
        title: "A sample entry".to_string(),
        language: "en".to_string(),
        category: ZimCategory::Other,
        size,
        url: url.to_string(),
        mirrors: Vec::new(),
        date: None,
        sha256: None,
        article_count: None,
        media_count: None,
        repository: "kiwix".to_string(),
        tags: Vec::new(),
        flavor: None,
    }
}

#[test]
fn add_assigns_counter_ids_and_target_path() {
    let mut m = DownloadManager::new();
    let a = m
        .add_download(entry("https://host/zim/a.zim", 10), "/dl")
        .unwrap();
    let b = m
        .add_download(entry("https://host/zim/b.zim", 20), "/dl")
        .unwrap();
    assert_eq!(a, "0");
    assert_eq!(b, "1");
    let t = m.get_task("0").unwrap();
    assert_eq!(t.target_path, "/dl/a.zim");
    assert_eq!(t.status, DownloadStatus::Pending);
    assert_eq!(t.downloaded, 0);
    assert_eq!(t.total, 10);
}

// A 1000-byte resource: start, receive 400 bytes, pause, resume. The
// second request carries `Range: bytes=400-`; the final state is
// Completed with downloaded == total == 1000.
#[test]
fn pause_resume_completes_with_range_request() {
    let mut m = DownloadManager::new();
    let id = m
        .add_download(entry("https://host/files/big.zim", 1000), "/dl")
        .unwrap();

    let plan = m.start_download_at(&id, 100).unwrap();
    assert_eq!(plan.offset, 0);
    assert!(plan.range_header.is_none());
    assert_eq!(plan.url, "https://host/files/big.zim");
    assert_eq!(m.get_task(&id).unwrap().status, DownloadStatus::Downloading);
    assert_eq!(m.get_task(&id).unwrap().started_at, Some(100));

    let total = resolve_response(plan.offset, 200, Some(1000)).unwrap();
    assert_eq!(total, 1000);
    let mut run = ExecRun::new(plan.offset, total, 0);

    // 400 bytes, late enough that the progress recompute fires.
    let c = m.process_chunk(&mut run, &id, 400, 150);
    assert_eq!(c, ChunkControl::Continue);
    let t = m.get_task(&id).unwrap();
    assert_eq!(t.downloaded, 400);
    assert_eq!(t.total, 1000);
    assert!(t.downloaded <= t.total);

    // The channel carries the update as a hint.
    let u = m.channel.try_recv().expect("one update queued");
    assert_eq!(u.task_id, id);
    assert_eq!(u.downloaded, 400);
    assert_eq!(u.total, 1000);

    m.pause_download(&id).unwrap();
    assert_eq!(m.get_task(&id).unwrap().status, DownloadStatus::Paused);

    // The executor notices the pause at its next cooperative check and
    // stops without touching the record.
    let c2 = m.process_chunk(&mut run, &id, 100, 260);
    assert_eq!(c2, ChunkControl::Stop);
    assert_eq!(m.get_task(&id).unwrap().downloaded, 400);

    // Resume relaunches at the stored offset with a range request.
    let plan2 = m.resume_download_at(&id, 200).unwrap();
    assert_eq!(plan2.offset, 400);
    assert_eq!(plan2.range_header, Some("bytes=400-".to_string()));

    let total2 = resolve_response(plan2.offset, 206, Some(600)).unwrap();
    assert_eq!(total2, 1000);
    let mut run2 = ExecRun::new(plan2.offset, total2, 0);
    let c3 = m.process_chunk(&mut run2, &id, 600, 150);
    assert_eq!(c3, ChunkControl::Continue);

    m.finish_run_at(&id, RunOutcome::Completed, 300);
    assert!(m.get_task(&id).is_none());
    let h = m.get_history();
    assert_eq!(h.len(), 1);
    assert_eq!(h[0].status, DownloadStatus::Completed);
    assert_eq!(h[0].downloaded, 1000);
    assert_eq!(h[0].total, 1000);
    assert_eq!(h[0].completed_at, Some(300));
}

// Cancelling an active task removes it from the active list, reports the
// partial file's path for deletion, and records it as Cancelled.
#[test]
fn cancel_moves_task_to_history_and_returns_path() {
    let mut m = DownloadManager::new();
    let id = m
        .add_download(entry("https://host/files/doomed.zim", 500), "/dl")
        .unwrap();
    m.start_download_at(&id, 1).unwrap();
    let mut run = ExecRun::new(0, 500, 0);
    m.process_chunk(&mut run, &id, 200, 120);

    let path = m.cancel_download(&id).unwrap();
    assert_eq!(path, "/dl/doomed.zim");
    assert!(m.get_task(&id).is_none());
    assert!(m.get_active_tasks().is_empty());
    let h = m.get_history();
    assert_eq!(h.len(), 1);
    assert_eq!(h[0].status, DownloadStatus::Cancelled);
    assert_eq!(h[0].downloaded, 200);

    // The executor, finding the id gone, treats it as an implicit cancel.
    let c = m.process_chunk(&mut run, &id, 100, 400);
    assert_eq!(c, ChunkControl::Stop);
}

// Two tasks progress independently; cancelling one never affects the
// other's record.
#[test]
fn concurrent_tasks_are_independent() {
    let mut m = DownloadManager::new();
    let a = m
        .add_download(entry("https://host/files/a.zim", 300), "/dl")
        .unwrap();
    let b = m
        .add_download(entry("https://host/files/b.zim", 400), "/dl")
        .unwrap();
    m.start_download_at(&a, 1).unwrap();
    m.start_download_at(&b, 1).unwrap();

    let mut run_a = ExecRun::new(0, 300, 0);
    let mut run_b = ExecRun::new(0, 400, 0);
    m.process_chunk(&mut run_a, &a, 100, 150);
    m.process_chunk(&mut run_b, &b, 250, 150);

    let snap_b = m.get_task(&b).unwrap();
    m.cancel_download(&a).unwrap();
    let after_b = m.get_task(&b).unwrap();
    assert_eq!(after_b.status, snap_b.status);
    assert_eq!(after_b.downloaded, snap_b.downloaded);
    assert_eq!(after_b.total, snap_b.total);
    assert_eq!(after_b.target_path, snap_b.target_path);

    m.finish_run_at(&b, RunOutcome::Completed, 9);
    let h = m.get_history();
    assert_eq!(h.len(), 2);
    assert_eq!(h[0].status, DownloadStatus::Cancelled);
    assert_eq!(h[1].status, DownloadStatus::Completed);
    assert_eq!(h[1].downloaded, 400);
}

// Pausing an already-Paused task leaves it Paused: no error, no
// duplicate history entry.
#[test]
fn pause_is_idempotent() {
    let mut m = DownloadManager::new();
    let id = m
        .add_download(entry("https://host/files/p.zim", 100), "/dl")
        .unwrap();
    m.start_download_at(&id, 1).unwrap();

    m.pause_download(&id).unwrap();
    assert_eq!(m.get_task(&id).unwrap().status, DownloadStatus::Paused);
    m.pause_download(&id).unwrap();
    assert_eq!(m.get_task(&id).unwrap().status, DownloadStatus::Paused);
    assert_eq!(m.get_active_tasks().len(), 1);
    assert!(m.get_history().is_empty());
}

#[test]
fn unknown_ids_are_refused() {
    let mut m = DownloadManager::new();
    assert_eq!(m.pause_download("7"), Err(DownloadError::TaskNotFound));
    assert!(matches!(
        m.start_download_at("7", 1),
        Err(DownloadError::TaskNotFound)
    ));
    assert!(matches!(
        m.cancel_download("7"),
        Err(DownloadError::TaskNotFound)
    ));
}

#[test]
fn second_start_is_refused_while_downloading() {
    let mut m = DownloadManager::new();
    let id = m
        .add_download(entry("https://host/files/x.zim", 10), "/dl")
        .unwrap();
    m.start_download_at(&id, 1).unwrap();
    assert!(matches!(
        m.start_download_at(&id, 2),
        Err(DownloadError::AlreadyDownloading)
    ));
}

#[test]
fn failed_run_records_reason() {
    let mut m = DownloadManager::new();
    let id = m
        .add_download(entry("https://host/files/f.zim", 10), "/dl")
        .unwrap();
    m.start_download_at(&id, 1).unwrap();
    m.finish_run_at(&id, RunOutcome::Failed("HTTP error: 500".to_string()), 2);
    let h = m.get_history();
    assert_eq!(h.len(), 1);
    assert_eq!(h[0].status, DownloadStatus::Failed);
    assert_eq!(h[0].error, Some("HTTP error: 500".to_string()));
}

#[test]
fn finish_after_cancel_changes_nothing() {
    let mut m = DownloadManager::new();
    let id = m
        .add_download(entry("https://host/files/g.zim", 10), "/dl")
        .unwrap();
    m.start_download_at(&id, 1).unwrap();
    m.cancel_download(&id).unwrap();
    m.finish_run_at(&id, RunOutcome::Completed, 2);
    let h = m.get_history();
    assert_eq!(h.len(), 1);
    assert_eq!(h[0].status, DownloadStatus::Cancelled);
}

#[test]
fn error_messages_are_descriptive() {
    assert_eq!(DownloadError::TaskNotFound.message(), "task not found");
    assert_eq!(
        DownloadError::AlreadyDownloading.message(),
        "task is already downloading"
    );
    assert_eq!(
        DownloadError::TransportError(404).message(),
        "HTTP error: 404"
    );
    assert_eq!(
        DownloadError::ProtocolViolation(200).message(),
        "server ignored range request: HTTP 200"
    );
}
