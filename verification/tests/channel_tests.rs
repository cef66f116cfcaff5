use zim_downloader::channel::{ProgressChannel, ProgressUpdate};
use zim_downloader::strutil::last_path_segment;

fn update(task_id: &str, downloaded: u64) -> ProgressUpdate {
    ProgressUpdate {
        task_id: task_id.to_string(),
        downloaded,
        total: 100,
        speed: 10,
    }
}

#[test]
fn channel_delivers_in_order() {
    let mut c = ProgressChannel::new(4);
    assert!(c.try_send(update("1", 10)));
    assert!(c.try_send(update("1", 20)));
    assert_eq!(c.len(), 2);
    let first = c.try_recv().unwrap();
    assert_eq!(first.downloaded, 10);
    let second = c.try_recv().unwrap();
    assert_eq!(second.downloaded, 20);
    assert!(c.try_recv().is_none());
}

#[test]
fn full_channel_drops_updates_silently() {
    let mut c = ProgressChannel::new(2);
    assert!(c.try_send(update("1", 1)));
    assert!(c.try_send(update("1", 2)));
    // The queue is full: the update is dropped, nothing blocks.
    assert!(!c.try_send(update("1", 3)));
    assert_eq!(c.len(), 2);
    assert_eq!(c.try_recv().unwrap().downloaded, 1);
    // Room again.
    assert!(c.try_send(update("1", 4)));
    assert_eq!(c.try_recv().unwrap().downloaded, 2);
    assert_eq!(c.try_recv().unwrap().downloaded, 4);
}

#[test]
fn last_segment_of_url() {
    assert_eq!(last_path_segment("https://h/a/b/file.zim"), "file.zim");
    assert_eq!(last_path_segment("file.zim"), "file.zim");
    assert_eq!(last_path_segment("https://h/dir/"), "");
    assert_eq!(last_path_segment(""), "");
}
