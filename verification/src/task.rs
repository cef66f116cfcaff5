//! The task record: one transfer request and its mutable progress state.

use vstd::prelude::*;
use crate::repository::{entry_eq, ZimEntry};
use crate::strutil::{clone_opt_string, last_path_segment, spec_last_segment};

verus! {

/// Lifecycle state of a download task.
#[derive(Debug, Clone, Copy, PartialEq, Eq, Structural)]
pub enum DownloadStatus {
    Pending,
    Downloading,
    Paused,
    Completed,
    Failed,
    Cancelled,
}

/// A download task.
///
/// Timestamps are whole seconds since the Unix epoch. A `total` of 0 means
/// the size is not yet known.
#[derive(Debug)]
pub struct DownloadTask {
    /// Unique id, assigned at creation, immutable.
    pub id: String,
    /// ZIM entry being downloaded.
    pub zim: ZimEntry,
    /// Target file path.
    pub target_path: String,
    /// Current status.
    pub status: DownloadStatus,
    /// Bytes downloaded.
    pub downloaded: u64,
    /// Total bytes; 0 until the server has reported a size.
    pub total: u64,
    /// Download speed in bytes per second, from the latest measurement.
    pub speed: u64,
    /// Estimated seconds remaining; absent while the speed is zero.
    pub eta: Option<u64>,
    /// Start time.
    pub started_at: Option<i64>,
    /// Completion time.
    pub completed_at: Option<i64>,
    /// Error message, set only when the task failed.
    pub error: Option<String>,
}

/// The byte counters are consistent: once a total is known, no more than
/// that many bytes are recorded as downloaded.
pub open spec fn task_wf(t: DownloadTask) -> bool {
    t.total > 0 ==> t.downloaded <= t.total
}

/// Two tasks carry the same data, vector fields compared by contents.
pub open spec fn task_eq(a: DownloadTask, b: DownloadTask) -> bool {
    &&& a.id == b.id
    &&& entry_eq(a.zim, b.zim)
    &&& a.target_path == b.target_path
    &&& a.status == b.status
    &&& a.downloaded == b.downloaded
    &&& a.total == b.total
    &&& a.speed == b.speed
    &&& a.eta == b.eta
    &&& a.started_at == b.started_at
    &&& a.completed_at == b.completed_at
    &&& a.error == b.error
}

impl Clone for DownloadTask {
    fn clone(&self) -> (res: Self)
        ensures
            task_eq(res, *self),
    {
        DownloadTask {
            id: self.id.clone(),
            zim: self.zim.clone(),
            target_path: self.target_path.clone(),
            status: self.status,
            downloaded: self.downloaded,
            total: self.total,
            speed: self.speed,
            eta: self.eta,
            started_at: self.started_at,
            completed_at: self.completed_at,
            error: clone_opt_string(&self.error),
        }
    }
}

impl DownloadTask {
    /// Build a fresh Pending task for `zim` with the given id.
    ///
    /// The target path joins the download directory with the final path
    /// segment of the entry's URL.
    pub fn new(id: String, zim: ZimEntry, target_dir: &str) -> (t: DownloadTask)
        ensures
            t.id == id,
            t.zim == zim,
            t.target_path@ == target_dir@ + "/"@ + spec_last_segment(zim.url@),
            t.status is Pending,
            t.downloaded == 0,
            t.total == zim.size,
            t.speed == 0,
            t.eta is None,
            t.started_at is None,
            t.completed_at is None,
            t.error is None,
            task_wf(t),
    {
        let filename = last_path_segment(zim.url.as_str());
        let target_path = String::from_str(target_dir).concat("/").concat(filename.as_str());
        proof {
            assert(target_path@ =~= target_dir@ + "/"@ + spec_last_segment(zim.url@));
        }
        let size = zim.size;
        DownloadTask {
            id,
            zim,
            target_path,
            status: DownloadStatus::Pending,
            downloaded: 0,
            total: size,
            speed: 0,
            eta: Option::None,
            started_at: Option::None,
            completed_at: Option::None,
            error: Option::None,
        }
    }

    /// Progress through the transfer as a whole percentage, 0 when the
    /// total size is not yet known.
    pub fn progress(&self) -> (r: u64)
        requires
            task_wf(*self),
        ensures
            r == spec_progress(*self),
            r <= 100,
    {
        if self.total == 0 {
            0
        } else {
            let wide: u128 = (self.downloaded as u128) * 100 / (self.total as u128);
            assert(wide <= 100) by (nonlinear_arith)
                requires
                    wide as int == self.downloaded as int * 100 / (self.total as int),
                    0 < self.total as int,
                    self.downloaded as int <= self.total as int,
            ;
            wide as u64
        }
    }
}

/// The percentage `progress` returns: downloaded over total, scaled to
/// 0..=100 and rounded down; 0 when the total is unknown.
pub open spec fn spec_progress(t: DownloadTask) -> int {
    if t.total == 0 {
        0
    } else {
        t.downloaded as int * 100 / t.total as int
    }
}

/// `t` with its status replaced.
pub open spec fn with_status(t: DownloadTask, st: DownloadStatus) -> DownloadTask {
    DownloadTask { status: st, ..t }
}

/// `t` as the controller records it when a run starts: Downloading, with
/// the start time stamped.
pub open spec fn spec_started(t: DownloadTask, now: i64) -> DownloadTask {
    DownloadTask { status: DownloadStatus::Downloading, started_at: Option::Some(now), ..t }
}

/// `t` with freshly measured progress written in.
pub open spec fn with_progress(
    t: DownloadTask,
    downloaded: u64,
    total: u64,
    speed: u64,
    eta: Option<u64>,
) -> DownloadTask {
    DownloadTask { downloaded, total, speed, eta, ..t }
}

/// `t` finalized after a run reached the end of the stream: Completed,
/// counters agreeing, completion time stamped.
pub open spec fn spec_completed(t: DownloadTask, now: i64) -> DownloadTask {
    DownloadTask {
        status: DownloadStatus::Completed,
        downloaded: t.total,
        completed_at: Option::Some(now),
        ..t
    }
}

/// `t` finalized after a run failed, the reason recorded.
pub open spec fn spec_failed(t: DownloadTask, error: String) -> DownloadTask {
    DownloadTask { status: DownloadStatus::Failed, error: Option::Some(error), ..t }
}

} // verus!
