//! The task store: the single source of truth for task state, holding the
//! active set and the terminal history, with atomic list operations.

use vstd::prelude::*;
use crate::strutil::str_eq;
use crate::task::{
    spec_started, task_eq, task_wf, with_progress, with_status, DownloadStatus, DownloadTask,
};

verus! {

/// No two tasks in `s` share an id.
pub open spec fn ids_distinct(s: Seq<DownloadTask>) -> bool {
    forall|i: int, j: int|
        0 <= i < j < s.len() ==> (#[trigger] s[i]).id@ != (#[trigger] s[j]).id@
}

/// No task in `a` shares an id with one in `h`.
pub open spec fn sets_disjoint(a: Seq<DownloadTask>, h: Seq<DownloadTask>) -> bool {
    forall|i: int, j: int|
        0 <= i < a.len() && 0 <= j < h.len() ==> (#[trigger] a[i]).id@ != (#[trigger] h[j]).id@
}

/// Every task in `s` has consistent byte counters.
pub open spec fn all_wf(s: Seq<DownloadTask>) -> bool {
    forall|i: int| 0 <= i < s.len() ==> task_wf(#[trigger] s[i])
}

/// Some task in `s` carries the id.
pub open spec fn contains_id(s: Seq<DownloadTask>, id: Seq<char>) -> bool {
    exists|i: int| 0 <= i < s.len() && (#[trigger] s[i]).id@ == id
}

/// The registry of tasks: the active set and the terminal history.
///
/// A task id lives in at most one of the two lists, and never twice in
/// either.
pub struct TaskStore {
    /// Tasks not yet in a terminal state.
    pub active: Vec<DownloadTask>,
    /// Completed, failed and cancelled tasks.
    pub history: Vec<DownloadTask>,
}

impl TaskStore {
    /// Ids are unique across both lists and every record is consistent.
    pub open spec fn wf(self) -> bool {
        &&& ids_distinct(self.active@)
        &&& ids_distinct(self.history@)
        &&& sets_disjoint(self.active@, self.history@)
        &&& all_wf(self.active@)
        &&& all_wf(self.history@)
    }

    /// An empty store.
    pub fn new() -> (s: TaskStore)
        ensures
            s.wf(),
            s.active@.len() == 0,
            s.history@.len() == 0,
    {
        TaskStore { active: Vec::new(), history: Vec::new() }
    }

    /// The index of the active task with the given id, if any.
    pub fn find_active(&self, id: &str) -> (r: Option<usize>)
        ensures
            match r {
                Option::Some(i) => i < self.active@.len() && self.active@[i as int].id@ == id@,
                Option::None => !contains_id(self.active@, id@),
            },
    {
        let mut i: usize = 0;
        while i < self.active.len()
            invariant
                i <= self.active@.len(),
                forall|j: int| 0 <= j < i ==> (#[trigger] self.active@[j]).id@ != id@,
            decreases self.active@.len() - i,
        {
            if str_eq(self.active[i].id.as_str(), id) {
                return Option::Some(i);
            }
            i = i + 1;
        }
        Option::None
    }

    /// Add a task whose id is not yet present anywhere in the store.
    pub fn insert(&mut self, t: DownloadTask)
        requires
            old(self).wf(),
            task_wf(t),
            !contains_id(old(self).active@, t.id@),
            !contains_id(old(self).history@, t.id@),
        ensures
            final(self).wf(),
            final(self).active@ == old(self).active@.push(t),
            final(self).history@ == old(self).history@,
    {
        proof {
            let a = old(self).active@;
            assert forall|i: int| 0 <= i < a.len() implies (#[trigger] a[i]).id@ != t.id@ by {
                assert(!(0 <= i < a.len() && a[i].id@ == t.id@));
            }
        }
        self.active.push(t);
    }

    /// Take the active task at index `i` out of the store.
    pub fn remove_active(&mut self, i: usize) -> (t: DownloadTask)
        requires
            old(self).wf(),
            i < old(self).active@.len(),
        ensures
            final(self).wf(),
            t == old(self).active@[i as int],
            final(self).active@ == old(self).active@.remove(i as int),
            final(self).history@ == old(self).history@,
            !contains_id(final(self).active@, t.id@),
            !contains_id(final(self).history@, t.id@),
            task_wf(t),
    {
        let t = self.active.remove(i);
        proof {
            let a = old(self).active@;
            let r = self.active@;
            assert forall|k: int| 0 <= k < r.len() implies (#[trigger] r[k]).id@ != t.id@ by {
                if k < i {
                    assert(r[k] == a[k]);
                } else {
                    assert(r[k] == a[k + 1]);
                }
            }
        }
        t
    }

    /// Append a task whose id is not present anywhere in the store to the
    /// history.
    pub fn push_history(&mut self, t: DownloadTask)
        requires
            old(self).wf(),
            task_wf(t),
            !contains_id(old(self).active@, t.id@),
            !contains_id(old(self).history@, t.id@),
        ensures
            final(self).wf(),
            final(self).history@ == old(self).history@.push(t),
            final(self).active@ == old(self).active@,
    {
        proof {
            let a = old(self).active@;
            let h = old(self).history@;
            assert forall|i: int| 0 <= i < a.len() implies (#[trigger] a[i]).id@ != t.id@ by {
                assert(!(0 <= i < a.len() && a[i].id@ == t.id@));
            }
            assert forall|i: int| 0 <= i < h.len() implies (#[trigger] h[i]).id@ != t.id@ by {
                assert(!(0 <= i < h.len() && h[i].id@ == t.id@));
            }
        }
        self.history.push(t);
    }

    /// Set the status of the active task at index `i`.
    pub fn set_status_at(&mut self, i: usize, st: DownloadStatus)
        requires
            old(self).wf(),
            i < old(self).active@.len(),
        ensures
            final(self).wf(),
            final(self).active@ == old(self).active@.update(
                i as int,
                with_status(old(self).active@[i as int], st),
            ),
            final(self).history@ == old(self).history@,
    {
        let mut t = self.active.remove(i);
        t.status = st;
        self.active.insert(i, t);
        proof {
            let a = old(self).active@;
            let b = self.active@;
            assert(b =~= a.update(i as int, with_status(a[i as int], st)));
            lemma_wf_update_same_id(a, old(self).history@, i as int, b[i as int]);
        }
    }

    /// Mark the active task at index `i` as started: Downloading, with
    /// the start time stamped.
    pub fn mark_started_at(&mut self, i: usize, now: i64)
        requires
            old(self).wf(),
            i < old(self).active@.len(),
        ensures
            final(self).wf(),
            final(self).active@ == old(self).active@.update(
                i as int,
                spec_started(old(self).active@[i as int], now),
            ),
            final(self).history@ == old(self).history@,
    {
        let mut t = self.active.remove(i);
        t.status = DownloadStatus::Downloading;
        t.started_at = Option::Some(now);
        self.active.insert(i, t);
        proof {
            let a = old(self).active@;
            let b = self.active@;
            assert(b =~= a.update(i as int, spec_started(a[i as int], now)));
            lemma_wf_update_same_id(a, old(self).history@, i as int, b[i as int]);
        }
    }

    /// Write freshly measured progress into the active task at index `i`.
    pub fn apply_sample_at(
        &mut self,
        i: usize,
        downloaded: u64,
        total: u64,
        speed: u64,
        eta: Option<u64>,
    )
        requires
            old(self).wf(),
            i < old(self).active@.len(),
            total > 0 ==> downloaded <= total,
        ensures
            final(self).wf(),
            final(self).active@ == old(self).active@.update(
                i as int,
                with_progress(old(self).active@[i as int], downloaded, total, speed, eta),
            ),
            final(self).history@ == old(self).history@,
    {
        let mut t = self.active.remove(i);
        t.downloaded = downloaded;
        t.total = total;
        t.speed = speed;
        t.eta = eta;
        self.active.insert(i, t);
        proof {
            let a = old(self).active@;
            let b = self.active@;
            assert(b =~= a.update(i as int, with_progress(a[i as int], downloaded, total, speed, eta)));
            lemma_wf_update_same_id(a, old(self).history@, i as int, b[i as int]);
        }
    }

    /// Copies of the active tasks.
    pub fn snapshot_active(&self) -> (r: Vec<DownloadTask>)
        ensures
            r@.len() == self.active@.len(),
            forall|i: int| 0 <= i < r@.len() ==> task_eq(#[trigger] r@[i], self.active@[i]),
    {
        snapshot(&self.active)
    }

    /// Copies of the history.
    pub fn snapshot_history(&self) -> (r: Vec<DownloadTask>)
        ensures
            r@.len() == self.history@.len(),
            forall|i: int| 0 <= i < r@.len() ==> task_eq(#[trigger] r@[i], self.history@[i]),
    {
        snapshot(&self.history)
    }
}

/// In a consistent store this holds of every task at all times, in the
/// active set and in the history alike: once a task's total is known,
/// its downloaded byte count never exceeds it.
pub proof fn lemma_counters_within_total(s: TaskStore)
    requires
        s.wf(),
    ensures
        forall|i: int|
            0 <= i < s.active@.len() ==> ((#[trigger] s.active@[i]).total > 0
                ==> s.active@[i].downloaded <= s.active@[i].total),
        forall|i: int|
            0 <= i < s.history@.len() ==> ((#[trigger] s.history@[i]).total > 0
                ==> s.history@[i].downloaded <= s.history@[i].total),
{
}

/// Replacing one task with another carrying the same id keeps the store's
/// id discipline and record consistency.
proof fn lemma_wf_update_same_id(a: Seq<DownloadTask>, h: Seq<DownloadTask>, i: int, t: DownloadTask)
    requires
        ids_distinct(a),
        sets_disjoint(a, h),
        all_wf(a),
        0 <= i < a.len(),
        t.id@ == a[i].id@,
        task_wf(t),
    ensures
        ids_distinct(a.update(i, t)),
        sets_disjoint(a.update(i, t), h),
        all_wf(a.update(i, t)),
{
    let b = a.update(i, t);
    assert forall|p: int, q: int| 0 <= p < q < b.len() implies (#[trigger] b[p]).id@
        != (#[trigger] b[q]).id@ by {
        assert(a[p].id@ != a[q].id@);
    }
    assert forall|p: int, q: int|
        0 <= p < b.len() && 0 <= q < h.len() implies (#[trigger] b[p]).id@
        != (#[trigger] h[q]).id@ by {
        assert(a[p].id@ != h[q].id@);
    }
    assert forall|p: int| 0 <= p < b.len() implies task_wf(#[trigger] b[p]) by {
        if p != i {
            assert(b[p] == a[p]);
        }
    }
}

/// Element-wise copy of a task list.
fn snapshot(v: &Vec<DownloadTask>) -> (r: Vec<DownloadTask>)
    ensures
        r@.len() == v@.len(),
        forall|i: int| 0 <= i < r@.len() ==> task_eq(#[trigger] r@[i], v@[i]),
{
    let mut r: Vec<DownloadTask> = Vec::new();
    let mut i: usize = 0;
    while i < v.len()
        invariant
            i <= v@.len(),
            r@.len() == i,
            forall|j: int| 0 <= j < i ==> task_eq(#[trigger] r@[j], v@[j]),
        decreases v@.len() - i,
    {
        r.push(v[i].clone());
        i = i + 1;
    }
    r
}

} // verus!
