//! The transfer executor's decision logic: response validation, the
//! per-chunk bookkeeping, and the throttled progress recomputation.
//!
//! The network itself is driven outside the library; these functions
//! decide, for every response and every chunk, what the run does next.

use vstd::prelude::*;
use crate::decimal::{dec_digits, format_u64};
use crate::errors::DownloadError;

verus! {

/// `a + b`, capped at the largest representable value.
pub open spec fn sat_add_u64(a: u64, b: u64) -> u64 {
    if a + b > u64::MAX {
        u64::MAX
    } else {
        (a + b) as u64
    }
}

/// Everything the runner of one transfer needs: where to fetch from,
/// where to write, and from which byte offset to continue.
#[derive(Debug)]
pub struct TransferPlan {
    /// Id of the task the run is bound to.
    pub task_id: String,
    /// Source URL.
    pub url: String,
    /// Destination file path.
    pub target_path: String,
    /// Byte offset the run starts at: 0 for a fresh task, the bytes
    /// already on disk for a resume.
    pub offset: u64,
    /// Value for the request's Range header; absent when starting at 0.
    pub range_header: Option<String>,
}

/// The Range header value requesting bytes from `offset` onward, or
/// nothing when the transfer starts at the beginning.
pub fn range_header_value(offset: u64) -> (r: Option<String>)
    ensures
        offset == 0 ==> r is None,
        offset > 0 ==> (r matches Some(s) && s@ == "bytes="@ + dec_digits(offset as nat) + "-"@),
{
    if offset == 0 {
        Option::None
    } else {
        let s = String::from_str("bytes=").concat(format_u64(offset).as_str()).concat("-");
        proof {
            assert(s@ =~= "bytes="@ + dec_digits(offset as nat) + "-"@);
        }
        Option::Some(s)
    }
}

/// How a transfer run ended, as reported back to the controller.
#[derive(Debug)]
pub enum RunOutcome {
    /// The stream was exhausted without interruption.
    Completed,
    /// The run noticed a pause or an implicit cancellation and stopped;
    /// the task record, if still present, is left as the controller set it.
    Stopped,
    /// A transport or filesystem error ended the run; the message becomes
    /// the task's error.
    Failed(String),
}

/// Resolve the server's answer to the opening request.
///
/// Full content (200) and partial content (206) are accepted, except that
/// a range request answered with full content would corrupt the partial
/// file and is refused as a protocol violation. Every other status fails
/// the run as a transport error. On success the true total size is the
/// offset plus the server-reported remaining length, 0 standing in for an
/// omitted length.
pub fn resolve_response(offset: u64, status: u16, content_length: Option<u64>) -> (r: Result<
    u64,
    DownloadError,
>)
    ensures
        status != 200 && status != 206 ==> r == Result::<u64, DownloadError>::Err(
            DownloadError::TransportError(status),
        ),
        status == 200 && offset > 0 ==> r == Result::<u64, DownloadError>::Err(
            DownloadError::ProtocolViolation(status),
        ),
        status == 206 || (status == 200 && offset == 0) ==> r == Result::<u64, DownloadError>::Ok(
            sat_add_u64(
                offset,
                match content_length {
                    Option::Some(n) => n,
                    Option::None => 0u64,
                },
            ),
        ),
{
    if status != 200 && status != 206 {
        Result::Err(DownloadError::TransportError(status))
    } else if status == 200 && offset > 0 {
        Result::Err(DownloadError::ProtocolViolation(status))
    } else {
        let len = match content_length {
            Option::Some(n) => n,
            Option::None => 0,
        };
        let total = if offset <= u64::MAX - len {
            offset + len
        } else {
            u64::MAX
        };
        Result::Ok(total)
    }
}

/// One recomputed progress measurement, ready to be written to the store
/// and offered to the progress channel.
#[derive(Debug)]
pub struct ProgressSample {
    /// Bytes of the file written so far.
    pub downloaded: u64,
    /// The total size to record; raised to `downloaded` if the server
    /// sent more bytes than the length it reported.
    pub total: u64,
    /// Bytes per second over the measurement window.
    pub speed: u64,
    /// Estimated seconds remaining; absent when the speed is zero or the
    /// total is unknown.
    pub eta: Option<u64>,
}

/// Bytes per second given a byte count and a window of milliseconds,
/// capped at the largest representable value.
pub open spec fn spec_speed(bytes: u64, elapsed_ms: u64) -> u64
    recommends
        elapsed_ms > 0,
{
    let v = bytes as int * 1000 / elapsed_ms as int;
    if v > u64::MAX {
        u64::MAX
    } else {
        v as u64
    }
}

/// The total to record: unchanged, except raised to `downloaded` when the
/// server has sent beyond the size it reported; 0 stays 0 (unknown).
pub open spec fn spec_raised_total(total: u64, downloaded: u64) -> u64 {
    if total == 0 {
        0u64
    } else if downloaded > total {
        downloaded
    } else {
        total
    }
}

/// Estimated seconds remaining; absent when the speed is zero or the
/// total unknown.
pub open spec fn spec_eta(total: u64, downloaded: u64, speed: u64) -> Option<u64>
    recommends
        total > 0 ==> downloaded <= total,
{
    if speed > 0 && total > 0 {
        Option::Some((((total - downloaded) as int) / (speed as int)) as u64)
    } else {
        Option::None
    }
}

/// The mutable state of one transfer run.
#[derive(Debug)]
pub struct ExecRun {
    /// Bytes of the file written so far, the resume offset included.
    pub downloaded: u64,
    /// The resolved total size; 0 when the server omitted a length.
    pub total: u64,
    /// Bytes received since the last progress recomputation.
    pub bytes_since_update: u64,
    /// Millisecond timestamp of the last progress recomputation.
    pub last_update_ms: u64,
}

impl ExecRun {
    /// A run starting at `offset` with resolved total `total`, its
    /// measurement window opening at `start_ms`.
    pub fn new(offset: u64, total: u64, start_ms: u64) -> (r: ExecRun)
        ensures
            r.downloaded == offset,
            r.total == total,
            r.bytes_since_update == 0,
            r.last_update_ms == start_ms,
    {
        ExecRun { downloaded: offset, total, bytes_since_update: 0, last_update_ms: start_ms }
    }

    /// Absorb one received chunk at time `now_ms`.
    ///
    /// A progress recomputation happens exactly when at least 100
    /// milliseconds have passed since the last one; it yields a sample
    /// and resets the measurement window. Chunks arriving faster than
    /// the window produce no sample.
    pub fn on_chunk(&mut self, chunk_len: usize, now_ms: u64) -> (sample: Option<ProgressSample>)
        requires
            old(self).last_update_ms <= now_ms,
        ensures
            final(self).downloaded == sat_add_u64(old(self).downloaded, chunk_len as u64),
            sample is Some <==> now_ms - old(self).last_update_ms >= 100,
            now_ms - old(self).last_update_ms >= 100 ==> {
                let d2 = sat_add_u64(old(self).downloaded, chunk_len as u64);
                let b2 = sat_add_u64(old(self).bytes_since_update, chunk_len as u64);
                let sp = spec_speed(b2, (now_ms - old(self).last_update_ms) as u64);
                let t2 = spec_raised_total(old(self).total, d2);
                &&& final(self).total == t2
                &&& final(self).bytes_since_update == 0
                &&& final(self).last_update_ms == now_ms
                &&& sample == Some(
                    ProgressSample {
                        downloaded: d2,
                        total: t2,
                        speed: sp,
                        eta: spec_eta(t2, d2, sp),
                    },
                )
            },
            now_ms - old(self).last_update_ms < 100 ==> {
                &&& final(self).total == old(self).total
                &&& final(self).bytes_since_update == sat_add_u64(
                    old(self).bytes_since_update,
                    chunk_len as u64,
                )
                &&& final(self).last_update_ms == old(self).last_update_ms
            },
    {
        let len64 = chunk_len as u64;
        let d2 = if self.downloaded <= u64::MAX - len64 {
            self.downloaded + len64
        } else {
            u64::MAX
        };
        let b2 = if self.bytes_since_update <= u64::MAX - len64 {
            self.bytes_since_update + len64
        } else {
            u64::MAX
        };
        self.downloaded = d2;
        let elapsed = now_ms - self.last_update_ms;
        if elapsed >= 100 {
            let wide: u128 = (b2 as u128) * 1000 / (elapsed as u128);
            let speed: u64 = if wide > u64::MAX as u128 {
                u64::MAX
            } else {
                wide as u64
            };
            let t2 = if self.total == 0 {
                0
            } else if d2 > self.total {
                d2
            } else {
                self.total
            };
            let eta = if speed > 0 && t2 > 0 {
                Option::Some((t2 - d2) / speed)
            } else {
                Option::None
            };
            self.total = t2;
            self.bytes_since_update = 0;
            self.last_update_ms = now_ms;
            Option::Some(ProgressSample { downloaded: d2, total: t2, speed, eta })
        } else {
            self.bytes_since_update = b2;
            Option::None
        }
    }
}

} // verus!
