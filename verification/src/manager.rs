//! The task controller: the public operation surface over the task store,
//! the transfer executor and the progress channel.
//!
//! The controller owns the store; a host wraps the whole manager in its
//! own lock and runs one transfer loop per started task, feeding chunks
//! back through [`DownloadManager::process_chunk`].

use vstd::prelude::*;
use crate::channel::{ProgressChannel, ProgressUpdate};
use crate::clock::now_epoch_seconds;
use crate::decimal::{dec_digits, dec_val, format_u64, lemma_dec_digits_val};
use crate::errors::DownloadError;
use crate::executor::{
    range_header_value, sat_add_u64, spec_eta, spec_raised_total, spec_speed, ExecRun, RunOutcome,
    TransferPlan,
};
use crate::repository::ZimEntry;
use crate::store::{contains_id, TaskStore};
use crate::strutil::spec_last_segment;
use crate::task::{
    spec_completed, spec_failed, spec_started, task_eq, with_progress, with_status, DownloadStatus,
    DownloadTask,
};

verus! {

/// Every task id in `s` denotes a number below `n`.
pub open spec fn ids_bounded(s: Seq<DownloadTask>, n: u64) -> bool {
    forall|i: int| 0 <= i < s.len() ==> dec_val((#[trigger] s[i]).id@) < n
}

/// The download manager: the registry of tasks, the progress channel,
/// and the counter that hands out fresh task ids.
pub struct DownloadManager {
    /// The task registry.
    pub store: TaskStore,
    /// The bounded, best-effort progress queue.
    pub channel: ProgressChannel,
    /// The next task id to assign, rendered in decimal.
    pub next_id: u64,
}

/// How many progress updates the channel buffers.
pub const CHANNEL_CAPACITY: usize = 100;

impl DownloadManager {
    /// The store is consistent, the channel within its bound, and every
    /// assigned id below the counter, so fresh ids never collide.
    pub open spec fn wf(self) -> bool {
        &&& self.store.wf()
        &&& self.channel.wf()
        &&& self.channel.cap() == CHANNEL_CAPACITY
        &&& ids_bounded(self.store.active@, self.next_id)
        &&& ids_bounded(self.store.history@, self.next_id)
    }

    /// An empty manager.
    pub fn new() -> (m: DownloadManager)
        ensures
            m.wf(),
            m.store.active@.len() == 0,
            m.store.history@.len() == 0,
            m.channel.queued().len() == 0,
            m.next_id == 0,
    {
        DownloadManager {
            store: TaskStore::new(),
            channel: ProgressChannel::new(CHANNEL_CAPACITY),
            next_id: 0,
        }
    }

    /// Register a Pending task for `zim`, to be stored under `target_dir`,
    /// and return its fresh id.
    pub fn add_download(&mut self, zim: ZimEntry, target_dir: &str) -> (r: Result<
        String,
        DownloadError,
    >)
        requires
            old(self).wf(),
            old(self).next_id < u64::MAX,
        ensures
            final(self).wf(),
            final(self).next_id == old(self).next_id + 1,
            final(self).store.history@ == old(self).store.history@,
            final(self).channel == old(self).channel,
            r matches Ok(id) && id@ == dec_digits(old(self).next_id as nat),
            ({
                let t = final(self).store.active@.last();
                &&& final(self).store.active@ == old(self).store.active@.push(t)
                &&& t.id@ == dec_digits(old(self).next_id as nat)
                &&& t.zim == zim
                &&& t.status is Pending
                &&& t.downloaded == 0
                &&& t.total == zim.size
                &&& t.target_path@ == target_dir@ + "/"@ + spec_last_segment(zim.url@)
                &&& t.started_at is None
                &&& t.completed_at is None
                &&& t.error is None
            }),
    {
        let id = format_u64(self.next_id);
        let task = DownloadTask::new(id.clone(), zim, target_dir);
        proof {
            lemma_dec_digits_val(old(self).next_id as nat);
            let a = self.store.active@;
            let h = self.store.history@;
            assert forall|i: int| 0 <= i < a.len() implies (#[trigger] a[i]).id@ != task.id@ by {
                assert(dec_val(a[i].id@) < old(self).next_id);
            }
            assert forall|i: int| 0 <= i < h.len() implies (#[trigger] h[i]).id@ != task.id@ by {
                assert(dec_val(h[i].id@) < old(self).next_id);
            }
            assert(!contains_id(a, task.id@));
            assert(!contains_id(h, task.id@));
        }
        self.store.insert(task);
        self.next_id = self.next_id + 1;
        Result::Ok(id)
    }

    /// Mark the task Downloading as of time `now` and hand back the plan
    /// for its transfer run.
    ///
    /// Fails with `TaskNotFound` when the id is absent from the active
    /// set, and with `AlreadyDownloading` when a run is already bound to
    /// it, so no two executors ever run for the same id.
    pub fn start_download_at(&mut self, task_id: &str, now: i64) -> (r: Result<
        TransferPlan,
        DownloadError,
    >)
        requires
            old(self).wf(),
        ensures
            start_post(*old(self), *final(self), task_id@, now, r),
    {
        match self.store.find_active(task_id) {
            Option::None => {
                proof {
                    assert(spec_start_seq(self.store.active@, task_id@, now)
                        =~= self.store.active@);
                }
                Result::Err(DownloadError::TaskNotFound)
            },
            Option::Some(i) => {
                let already = self.store.active[i].status == DownloadStatus::Downloading;
                if already {
                    proof {
                        let a = self.store.active@;
                        assert forall|k: int| 0 <= k < a.len() implies spec_start_seq(
                            a,
                            task_id@,
                            now,
                        )[k] == a[k] by {
                            if k != i {
                                assert(a[k].id@ != a[i as int].id@);
                            }
                        }
                        assert(spec_start_seq(a, task_id@, now) =~= a);
                    }
                    Result::Err(DownloadError::AlreadyDownloading)
                } else {
                    let url = self.store.active[i].zim.url.clone();
                    let target_path = self.store.active[i].target_path.clone();
                    let offset = self.store.active[i].downloaded;
                    self.store.mark_started_at(i, now);
                    proof {
                        let a = old(self).store.active@;
                        let b = self.store.active@;
                        assert forall|k: int| 0 <= k < b.len() implies b[k] == spec_start_seq(
                            a,
                            task_id@,
                            now,
                        )[k] by {
                            if k != i {
                                assert(a[k].id@ != a[i as int].id@);
                            }
                        }
                        assert(b =~= spec_start_seq(a, task_id@, now));
                        lemma_ids_bounded_same_ids(a, b, old(self).next_id);
                    }
                    Result::Ok(
                        TransferPlan {
                            task_id: String::from_str(task_id),
                            url,
                            target_path,
                            offset,
                            range_header: range_header_value(offset),
                        },
                    )
                }
            },
        }
    }

    /// Mark the task Downloading as of the current time and hand back the
    /// plan for its transfer run.
    pub fn start_download(&mut self, task_id: &str) -> (r: Result<TransferPlan, DownloadError>)
        requires
            old(self).wf(),
        ensures
            exists|now: i64| start_post(*old(self), *final(self), task_id@, now, r),
    {
        let now = now_epoch_seconds();
        let r = self.start_download_at(task_id, now);
        proof {
            assert(start_post(*old(self), *self, task_id@, now, r));
        }
        r
    }

    /// Resume is start under another name: it relaunches a run at the
    /// task's current offset, which is non-zero after a pause.
    pub fn resume_download_at(&mut self, task_id: &str, now: i64) -> (r: Result<
        TransferPlan,
        DownloadError,
    >)
        requires
            old(self).wf(),
        ensures
            start_post(*old(self), *final(self), task_id@, now, r),
    {
        self.start_download_at(task_id, now)
    }

    /// Resume is start under another name, at the current time.
    pub fn resume_download(&mut self, task_id: &str) -> (r: Result<TransferPlan, DownloadError>)
        requires
            old(self).wf(),
        ensures
            exists|now: i64| start_post(*old(self), *final(self), task_id@, now, r),
    {
        self.start_download(task_id)
    }

    /// Copies of the active tasks.
    pub fn get_active_tasks(&self) -> (r: Vec<DownloadTask>)
        ensures
            r@.len() == self.store.active@.len(),
            forall|i: int| 0 <= i < r@.len() ==> task_eq(#[trigger] r@[i], self.store.active@[i]),
    {
        self.store.snapshot_active()
    }

    /// Copies of the history.
    pub fn get_history(&self) -> (r: Vec<DownloadTask>)
        ensures
            r@.len() == self.store.history@.len(),
            forall|i: int| 0 <= i < r@.len() ==> task_eq(#[trigger] r@[i], self.store.history@[i]),
    {
        self.store.snapshot_history()
    }

    /// A copy of the active task with the given id, if any.
    pub fn get_task(&self, task_id: &str) -> (r: Option<DownloadTask>)
        requires
            self.wf(),
        ensures
            r is Some <==> contains_id(self.store.active@, task_id@),
            forall|i: int|
                0 <= i < self.store.active@.len() && (#[trigger] self.store.active@[i]).id@
                    == task_id@ ==> (forall|t: DownloadTask|
                    r == Option::Some(t) ==> task_eq(t, self.store.active@[i])),
    {
        match self.store.find_active(task_id) {
            Option::None => Option::None,
            Option::Some(i) => {
                proof {
                    let a = self.store.active@;
                    assert forall|k: int|
                        0 <= k < a.len() && (#[trigger] a[k]).id@ == task_id@ implies k
                        == i as int by {
                        if k != i {
                            assert(a[k].id@ != a[i as int].id@);
                        }
                    }
                }
                Option::Some(self.store.active[i].clone())
            },
        }
    }

    /// Set the task's status to Paused; the running executor, if any,
    /// notices at its next cooperative check and stops, keeping the
    /// partial file.
    ///
    /// Pausing an already-Paused task is a no-op that still succeeds.
    pub fn pause_download(&mut self, task_id: &str) -> (r: Result<(), DownloadError>)
        requires
            old(self).wf(),
        ensures
            final(self).wf(),
            final(self).store.history@ == old(self).store.history@,
            final(self).channel == old(self).channel,
            final(self).next_id == old(self).next_id,
            final(self).store.active@ == spec_pause_seq(old(self).store.active@, task_id@),
            r is Ok <==> contains_id(old(self).store.active@, task_id@),
            !contains_id(old(self).store.active@, task_id@) ==> r == Result::<
                (),
                DownloadError,
            >::Err(DownloadError::TaskNotFound),
    {
        match self.store.find_active(task_id) {
            Option::None => {
                proof {
                    assert(spec_pause_seq(self.store.active@, task_id@) =~= self.store.active@);
                }
                Result::Err(DownloadError::TaskNotFound)
            },
            Option::Some(i) => {
                self.store.set_status_at(i, DownloadStatus::Paused);
                proof {
                    let a = old(self).store.active@;
                    let b = self.store.active@;
                    assert forall|k: int| 0 <= k < b.len() implies b[k] == spec_pause_seq(
                        a,
                        task_id@,
                    )[k] by {
                        if k != i {
                            assert(a[k].id@ != a[i as int].id@);
                        }
                    }
                    assert(b =~= spec_pause_seq(a, task_id@));
                    lemma_ids_bounded_same_ids(a, b, old(self).next_id);
                }
                Result::Ok(())
            },
        }
    }
    /// Remove the task from the active set unconditionally, finalize it
    /// as Cancelled in the history, and hand back the partial file's path
    /// for the caller to delete.
    ///
    /// A running executor, finding its id gone at the next cooperative
    /// check, treats that as an implicit cancellation and stops.
    pub fn cancel_download(&mut self, task_id: &str) -> (r: Result<String, DownloadError>)
        requires
            old(self).wf(),
        ensures
            cancel_post(*old(self), *final(self), task_id@, r),
    {
        match self.store.find_active(task_id) {
            Option::None => Result::Err(DownloadError::TaskNotFound),
            Option::Some(i) => {
                let mut t = self.store.remove_active(i);
                t.status = DownloadStatus::Cancelled;
                let path = t.target_path.clone();
                proof {
                    let a = old(self).store.active@;
                    lemma_ids_bounded_remove(a, i as int, old(self).next_id);
                    assert(dec_val(t.id@) < old(self).next_id);
                    assert forall|k: int|
                        0 <= k < a.len() && (#[trigger] a[k]).id@ == task_id@ implies k
                        == i as int by {
                        if k != i {
                            assert(a[k].id@ != a[i as int].id@);
                        }
                    }
                }
                self.store.push_history(t);
                proof {
                    lemma_ids_bounded_push(
                        old(self).store.history@,
                        with_status(old(self).store.active@[i as int], DownloadStatus::Cancelled),
                        old(self).next_id,
                    );
                }
                Result::Ok(path)
            },
        }
    }

    /// Record how a transfer run ended.
    ///
    /// A completed run finalizes its task as Completed, counters agreeing
    /// and the completion time stamped, and moves it to the history; a
    /// failed run does the same with status Failed and the reason
    /// recorded. A run that merely stopped (pause, or implicit
    /// cancellation) changes nothing; so does any outcome for an id the
    /// controller has already removed.
    pub fn finish_run_at(&mut self, task_id: &str, outcome: RunOutcome, now: i64)
        requires
            old(self).wf(),
        ensures
            finish_post(*old(self), *final(self), task_id@, outcome, now),
    {
        match outcome {
            RunOutcome::Stopped => {},
            RunOutcome::Completed => {
                match self.store.find_active(task_id) {
                    Option::None => {},
                    Option::Some(i) => {
                        let mut t = self.store.remove_active(i);
                        let total = t.total;
                        t.status = DownloadStatus::Completed;
                        t.downloaded = total;
                        t.completed_at = Option::Some(now);
                        proof {
                            let a = old(self).store.active@;
                            lemma_ids_bounded_remove(a, i as int, old(self).next_id);
                            assert(dec_val(t.id@) < old(self).next_id);
                            assert forall|k: int|
                                0 <= k < a.len() && (#[trigger] a[k]).id@ == task_id@ implies k
                                == i as int by {
                                if k != i {
                                    assert(a[k].id@ != a[i as int].id@);
                                }
                            }
                        }
                        self.store.push_history(t);
                        proof {
                            lemma_ids_bounded_push(
                                old(self).store.history@,
                                spec_completed(old(self).store.active@[i as int], now),
                                old(self).next_id,
                            );
                        }
                    },
                }
            },
            RunOutcome::Failed(msg) => {
                match self.store.find_active(task_id) {
                    Option::None => {},
                    Option::Some(i) => {
                        let ghost m = msg;
                        let mut t = self.store.remove_active(i);
                        t.status = DownloadStatus::Failed;
                        t.error = Option::Some(msg);
                        proof {
                            let a = old(self).store.active@;
                            lemma_ids_bounded_remove(a, i as int, old(self).next_id);
                            assert(dec_val(t.id@) < old(self).next_id);
                            assert forall|k: int|
                                0 <= k < a.len() && (#[trigger] a[k]).id@ == task_id@ implies k
                                == i as int by {
                                if k != i {
                                    assert(a[k].id@ != a[i as int].id@);
                                }
                            }
                        }
                        self.store.push_history(t);
                        proof {
                            lemma_ids_bounded_push(
                                old(self).store.history@,
                                spec_failed(old(self).store.active@[i as int], m),
                                old(self).next_id,
                            );
                        }
                    },
                }
            },
        }
    }

    /// Absorb one received chunk for the task bound to `run`.
    ///
    /// This is the executor's cooperative check and throttled progress
    /// recomputation in one step: if the task is Paused, Cancelled, or
    /// gone from the active set, nothing is touched and the run must
    /// stop. Otherwise the run's counters advance; when at least 100
    /// milliseconds have passed since the last recomputation the fresh
    /// measurement is written to the store and offered to the channel,
    /// which drops it if full.
    pub fn process_chunk(
        &mut self,
        run: &mut ExecRun,
        task_id: &str,
        chunk_len: usize,
        now_ms: u64,
    ) -> (c: ChunkControl)
        requires
            old(self).wf(),
            old(run).last_update_ms <= now_ms,
        ensures
            chunk_post(
                *old(self),
                *final(self),
                *old(run),
                *final(run),
                task_id@,
                chunk_len as u64,
                now_ms,
                c,
            ),
    {
        let found = self.store.find_active(task_id);
        match found {
            Option::None => {
                proof {
                    let a = self.store.active@;
                    assert forall|i: int|
                        0 <= i < a.len() && (#[trigger] a[i]).id@ == task_id@ implies (
                    a[i].status is Paused || a[i].status is Cancelled) by {
                        assert(contains_id(a, task_id@));
                    }
                }
                ChunkControl::Stop
            },
            Option::Some(i) => {
                let st = self.store.active[i].status;
                if st == DownloadStatus::Paused || st == DownloadStatus::Cancelled {
                    proof {
                        let a = self.store.active@;
                        assert forall|k: int|
                            0 <= k < a.len() && (#[trigger] a[k]).id@ == task_id@ implies (
                        a[k].status is Paused || a[k].status is Cancelled) by {
                            if k != i {
                                assert(a[k].id@ != a[i as int].id@);
                            }
                        }
                    }
                    ChunkControl::Stop
                } else {
                    proof {
                        let a = self.store.active@;
                        assert(0 <= i < a.len() && a[i as int].id@ == task_id@ && !(
                        a[i as int].status is Paused || a[i as int].status is Cancelled));
                    }
                    let sample_opt = run.on_chunk(chunk_len, now_ms);
                    match sample_opt {
                        Option::None => ChunkControl::Continue,
                        Option::Some(sample) => {
                            proof {
                                assert(sample.total > 0 ==> sample.downloaded <= sample.total);
                            }
                            self.store.apply_sample_at(
                                i,
                                sample.downloaded,
                                sample.total,
                                sample.speed,
                                sample.eta,
                            );
                            let update = ProgressUpdate {
                                task_id: String::from_str(task_id),
                                downloaded: sample.downloaded,
                                total: sample.total,
                                speed: sample.speed,
                            };
                            let ghost q0 = self.channel.queued();
                            let ghost u0 = update;
                            let kept = self.channel.try_send(update);
                            proof {
                                let a = old(self).store.active@;
                                assert forall|k: int|
                                    0 <= k < a.len() && (#[trigger] a[k]).id@ == task_id@ implies k
                                    == i as int by {
                                    if k != i {
                                        assert(a[k].id@ != a[i as int].id@);
                                    }
                                }
                                lemma_ids_bounded_same_ids(
                                    a,
                                    self.store.active@,
                                    old(self).next_id,
                                );
                                if kept {
                                    assert(q0.push(u0).drop_last() =~= q0);
                                }
                            }
                            ChunkControl::Continue
                        },
                    }
                }
            },
        }
    }

    /// Record how a transfer run ended, as of the current time.
    pub fn finish_run(&mut self, task_id: &str, outcome: RunOutcome)
        requires
            old(self).wf(),
        ensures
            exists|now: i64| finish_post(*old(self), *final(self), task_id@, outcome, now),
    {
        let now = now_epoch_seconds();
        self.finish_run_at(task_id, outcome, now);
        proof {
            assert(finish_post(*old(self), *self, task_id@, outcome, now));
        }
    }
}

/// What the transfer loop does after a chunk: keep streaming, or stop.
#[derive(Debug, Clone, Copy, PartialEq, Eq, Structural)]
pub enum ChunkControl {
    /// Keep streaming.
    Continue,
    /// The task was paused, cancelled, or removed: stop streaming now,
    /// leaving the file as it is.
    Stop,
}

/// The run bound to `id` must stop: every matching active task is Paused
/// or Cancelled — vacuously, an id gone from the active set (an implicit
/// cancellation) also stops the run.
pub open spec fn chunk_should_stop(a: Seq<DownloadTask>, id: Seq<char>) -> bool {
    forall|i: int|
        0 <= i < a.len() && (#[trigger] a[i]).id@ == id ==> (a[i].status is Paused
            || a[i].status is Cancelled)
}

/// Everything one chunk step leaves behind: when the run stops, how its
/// counters advance, that a recomputation happens exactly once per
/// 100 ms window, and what is then written to the store and offered to
/// the channel.
pub open spec fn chunk_post(
    pre: DownloadManager,
    post: DownloadManager,
    pre_run: ExecRun,
    post_run: ExecRun,
    id: Seq<char>,
    chunk_len: u64,
    now_ms: u64,
    c: ChunkControl,
) -> bool {
    &&& post.wf()
    &&& post.store.history@ == pre.store.history@
    &&& post.next_id == pre.next_id
    &&& (c is Stop <==> chunk_should_stop(pre.store.active@, id))
    &&& (c is Stop ==> post_run == pre_run && post.store.active@ == pre.store.active@
        && post.channel == pre.channel)
    &&& (c is Continue ==> {
        let fired = now_ms - pre_run.last_update_ms >= 100;
        let d2 = sat_add_u64(pre_run.downloaded, chunk_len);
        let b2 = sat_add_u64(pre_run.bytes_since_update, chunk_len);
        let sp = spec_speed(b2, (now_ms - pre_run.last_update_ms) as u64);
        let t2 = spec_raised_total(pre_run.total, d2);
        &&& post_run.downloaded == d2
        &&& (!fired ==> post_run.total == pre_run.total && post_run.bytes_since_update == b2
            && post_run.last_update_ms == pre_run.last_update_ms && post.store.active@
            == pre.store.active@ && post.channel == pre.channel)
        &&& (fired ==> {
            &&& post_run.total == t2
            &&& post_run.bytes_since_update == 0
            &&& post_run.last_update_ms == now_ms
            &&& (forall|i: int|
                0 <= i < pre.store.active@.len() && (#[trigger] pre.store.active@[i]).id@ == id
                    ==> post.store.active@ == pre.store.active@.update(
                    i,
                    with_progress(pre.store.active@[i], d2, t2, sp, spec_eta(t2, d2, sp)),
                ))
            &&& post.channel.cap() == pre.channel.cap()
            &&& (pre.channel.queued().len() < pre.channel.cap() ==> {
                let q1 = post.channel.queued();
                &&& q1.len() == pre.channel.queued().len() + 1
                &&& q1.drop_last() == pre.channel.queued()
                &&& q1.last().task_id@ == id
                &&& q1.last().downloaded == d2
                &&& q1.last().total == t2
                &&& q1.last().speed == sp
            })
            &&& (pre.channel.queued().len() >= pre.channel.cap() ==> post.channel.queued()
                == pre.channel.queued())
        })
    })
}

/// Everything a cancel of `id` leaves behind: the matching task moved to
/// the history as Cancelled, its partial file's path returned, everything
/// else untouched; `TaskNotFound` exactly when the id was already gone.
pub open spec fn cancel_post(
    pre: DownloadManager,
    post: DownloadManager,
    id: Seq<char>,
    r: Result<String, DownloadError>,
) -> bool {
    &&& post.wf()
    &&& post.channel == pre.channel
    &&& post.next_id == pre.next_id
    &&& (r is Ok <==> contains_id(pre.store.active@, id))
    &&& (!contains_id(pre.store.active@, id) ==> r == Result::<String, DownloadError>::Err(
        DownloadError::TaskNotFound,
    ) && post.store.active@ == pre.store.active@ && post.store.history@ == pre.store.history@)
    &&& (forall|i: int|
        0 <= i < pre.store.active@.len() && (#[trigger] pre.store.active@[i]).id@ == id ==> {
            let t = pre.store.active@[i];
            &&& post.store.active@ == pre.store.active@.remove(i)
            &&& post.store.history@ == pre.store.history@.push(
                with_status(t, DownloadStatus::Cancelled),
            )
            &&& (forall|p: String|
                r == Result::<String, DownloadError>::Ok(p) ==> p == t.target_path)
        })
}

/// Everything `finish_run_at` leaves behind, gathered so the clocked
/// variant can state it of some reading of the clock.
pub open spec fn finish_post(
    pre: DownloadManager,
    post: DownloadManager,
    id: Seq<char>,
    outcome: RunOutcome,
    now: i64,
) -> bool {
    &&& post.wf()
    &&& post.channel == pre.channel
    &&& post.next_id == pre.next_id
    &&& (!contains_id(pre.store.active@, id) || outcome is Stopped ==> post.store.active@
        == pre.store.active@ && post.store.history@ == pre.store.history@)
    &&& (forall|i: int|
        0 <= i < pre.store.active@.len() && (#[trigger] pre.store.active@[i]).id@ == id ==> {
            let t = pre.store.active@[i];
            match outcome {
                RunOutcome::Stopped => true,
                RunOutcome::Completed => post.store.active@ == pre.store.active@.remove(i)
                    && post.store.history@ == pre.store.history@.push(spec_completed(t, now)),
                RunOutcome::Failed(msg) => post.store.active@ == pre.store.active@.remove(i)
                    && post.store.history@ == pre.store.history@.push(spec_failed(t, msg)),
            }
        })
}

/// The active list after a start or resume of `id` at time `now`: the
/// matching task, unless already Downloading, becomes Downloading with
/// its start time stamped; everything else is untouched.
pub open spec fn spec_start_seq(a: Seq<DownloadTask>, id: Seq<char>, now: i64) -> Seq<
    DownloadTask,
> {
    Seq::new(
        a.len(),
        |i: int|
            if a[i].id@ == id && !(a[i].status is Downloading) {
                spec_started(a[i], now)
            } else {
                a[i]
            },
    )
}

/// Everything a start or resume of `id` at time `now` leaves behind:
/// the state transition, when each error is returned, and the exact
/// transfer plan handed out on success.
pub open spec fn start_post(
    pre: DownloadManager,
    post: DownloadManager,
    id: Seq<char>,
    now: i64,
    r: Result<TransferPlan, DownloadError>,
) -> bool {
    &&& post.wf()
    &&& post.store.history@ == pre.store.history@
    &&& post.channel == pre.channel
    &&& post.next_id == pre.next_id
    &&& post.store.active@ == spec_start_seq(pre.store.active@, id, now)
    &&& (!contains_id(pre.store.active@, id) ==> r == Result::<TransferPlan, DownloadError>::Err(
        DownloadError::TaskNotFound,
    ))
    &&& (r is Ok <==> exists|i: int|
        0 <= i < pre.store.active@.len() && (#[trigger] pre.store.active@[i]).id@ == id && !(
        pre.store.active@[i].status is Downloading))
    &&& (forall|i: int|
        0 <= i < pre.store.active@.len() && (#[trigger] pre.store.active@[i]).id@ == id ==> {
            let t = pre.store.active@[i];
            if t.status is Downloading {
                r == Result::<TransferPlan, DownloadError>::Err(DownloadError::AlreadyDownloading)
            } else {
                &&& r is Ok
                &&& (forall|p: TransferPlan|
                    r == Result::<TransferPlan, DownloadError>::Ok(p) ==> {
                        &&& p.task_id@ == id
                        &&& p.url == t.zim.url
                        &&& p.target_path == t.target_path
                        &&& p.offset == t.downloaded
                        &&& (p.offset == 0 ==> p.range_header is None)
                        &&& (p.offset > 0 ==> (p.range_header matches Some(s) && s@ == "bytes="@
                            + dec_digits(p.offset as nat) + "-"@))
                    })
            }
        })
}

/// The active list after a pause of `id`: the matching task Paused,
/// everything else untouched.
pub open spec fn spec_pause_seq(a: Seq<DownloadTask>, id: Seq<char>) -> Seq<DownloadTask> {
    Seq::new(
        a.len(),
        |i: int|
            if a[i].id@ == id {
                with_status(a[i], DownloadStatus::Paused)
            } else {
                a[i]
            },
    )
}

/// Pausing is idempotent: a second pause of the same id changes nothing.
pub proof fn lemma_pause_idempotent(a: Seq<DownloadTask>, id: Seq<char>)
    ensures
        spec_pause_seq(spec_pause_seq(a, id), id) == spec_pause_seq(a, id),
{
    assert(spec_pause_seq(spec_pause_seq(a, id), id) =~= spec_pause_seq(a, id));
}

/// Removing a task keeps the id bound.
proof fn lemma_ids_bounded_remove(a: Seq<DownloadTask>, i: int, n: u64)
    requires
        ids_bounded(a, n),
        0 <= i < a.len(),
    ensures
        ids_bounded(a.remove(i), n),
{
    let b = a.remove(i);
    assert forall|k: int| 0 <= k < b.len() implies dec_val((#[trigger] b[k]).id@) < n by {
        if k < i {
            assert(b[k] == a[k]);
        } else {
            assert(b[k] == a[k + 1]);
        }
    }
}

/// Appending a task whose id is below the bound keeps the id bound.
proof fn lemma_ids_bounded_push(h: Seq<DownloadTask>, t: DownloadTask, n: u64)
    requires
        ids_bounded(h, n),
        dec_val(t.id@) < n,
    ensures
        ids_bounded(h.push(t), n),
{
    let b = h.push(t);
    assert forall|k: int| 0 <= k < b.len() implies dec_val((#[trigger] b[k]).id@) < n by {
        if k < h.len() {
            assert(b[k] == h[k]);
        } else {
            assert(b[k] == t);
        }
    }
}

/// Lists with the same ids position by position satisfy the same id bound.
proof fn lemma_ids_bounded_same_ids(a: Seq<DownloadTask>, b: Seq<DownloadTask>, n: u64)
    requires
        ids_bounded(a, n),
        b.len() == a.len(),
        forall|i: int| 0 <= i < b.len() ==> (#[trigger] b[i]).id@ == a[i].id@,
    ensures
        ids_bounded(b, n),
{
    assert forall|i: int| 0 <= i < b.len() implies dec_val((#[trigger] b[i]).id@) < n by {
        assert(dec_val(a[i].id@) < n);
    }
}

} // verus!
