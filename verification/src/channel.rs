//! The progress channel: a bounded, best-effort notification queue
//! decoupling the transfer executor from slow consumers.

use vstd::prelude::*;

verus! {

/// One progress notification for a task.
#[derive(Debug)]
pub struct ProgressUpdate {
    pub task_id: String,
    pub downloaded: u64,
    pub total: u64,
    pub speed: u64,
}

impl Clone for ProgressUpdate {
    fn clone(&self) -> (res: Self)
        ensures
            res == *self,
    {
        ProgressUpdate {
            task_id: self.task_id.clone(),
            downloaded: self.downloaded,
            total: self.total,
            speed: self.speed,
        }
    }
}

/// A bounded first-in first-out queue of progress updates.
///
/// Sending never blocks: when the queue is full the update is dropped.
/// The task store stays authoritative; the channel is only a hint.
pub struct ProgressChannel {
    buf: Vec<ProgressUpdate>,
    capacity: usize,
}

impl ProgressChannel {
    /// The queued updates, oldest first.
    pub closed spec fn queued(self) -> Seq<ProgressUpdate> {
        self.buf@
    }

    /// The fixed bound on the queue.
    pub closed spec fn cap(self) -> int {
        self.capacity as int
    }

    /// The queue never outgrows its positive bound.
    pub closed spec fn wf(self) -> bool {
        self.buf@.len() <= self.capacity && self.capacity > 0
    }

    /// An empty channel holding at most `capacity` updates.
    pub fn new(capacity: usize) -> (c: ProgressChannel)
        requires
            capacity > 0,
        ensures
            c.wf(),
            c.queued().len() == 0,
            c.cap() == capacity,
    {
        ProgressChannel { buf: Vec::new(), capacity }
    }

    /// Append an update if there is room; report whether it was kept.
    pub fn try_send(&mut self, u: ProgressUpdate) -> (kept: bool)
        requires
            old(self).wf(),
        ensures
            final(self).wf(),
            final(self).cap() == old(self).cap(),
            kept == (old(self).queued().len() < old(self).cap()),
            kept ==> final(self).queued() == old(self).queued().push(u),
            !kept ==> final(self).queued() == old(self).queued(),
    {
        if self.buf.len() < self.capacity {
            self.buf.push(u);
            true
        } else {
            false
        }
    }

    /// Take the oldest queued update, if any.
    pub fn try_recv(&mut self) -> (r: Option<ProgressUpdate>)
        requires
            old(self).wf(),
        ensures
            final(self).wf(),
            final(self).cap() == old(self).cap(),
            old(self).queued().len() == 0 ==> r is None && final(self).queued()
                == old(self).queued(),
            old(self).queued().len() > 0 ==> r == Some(old(self).queued()[0])
                && final(self).queued() == old(self).queued().drop_first(),
    {
        if self.buf.len() == 0 {
            Option::None
        } else {
            let u = self.buf.remove(0);
            proof {
                assert(old(self).queued().remove(0) =~= old(self).queued().drop_first());
            }
            Option::Some(u)
        }
    }

    /// How many updates are queued.
    pub fn len(&self) -> (n: usize)
        ensures
            n == self.queued().len(),
    {
        self.buf.len()
    }
}

} // verus!
