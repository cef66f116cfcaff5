//! Errors reported by the task controller and the transfer executor.

use vstd::prelude::*;
use crate::decimal::{dec_digits, format_u64};

verus! {

/// Why a controller operation or a transfer run was refused.
///
/// - `TaskNotFound`: the operation named an id absent from the active set.
/// - `AlreadyDownloading`: a start or resume named a task that already has
///   a running executor.
/// - `TransportError`: the server answered with a status other than
///   full content or partial content; the status is carried.
/// - `ProtocolViolation`: a byte-range request was answered with full
///   content, so appending the body would corrupt the partial file.
#[derive(Debug, Clone, Copy, PartialEq, Eq, Structural)]
pub enum DownloadError {
    TaskNotFound,
    AlreadyDownloading,
    TransportError(u16),
    ProtocolViolation(u16),
}

impl DownloadError {
    /// A human-readable description of the error.
    pub fn message(&self) -> (r: String)
        ensures
            *self is TaskNotFound ==> r@ == "task not found"@,
            *self is AlreadyDownloading ==> r@ == "task is already downloading"@,
            forall|s: u16| *self == DownloadError::TransportError(s) ==> r@ == "HTTP error: "@
                + dec_digits(s as nat),
            forall|s: u16|
                *self == DownloadError::ProtocolViolation(s) ==> r@
                    == "server ignored range request: HTTP "@ + dec_digits(s as nat),
    {
        match self {
            DownloadError::TaskNotFound => String::from_str("task not found"),
            DownloadError::AlreadyDownloading => String::from_str("task is already downloading"),
            DownloadError::TransportError(s) => {
                let r = String::from_str("HTTP error: ").concat(format_u64(*s as u64).as_str());
                r
            },
            DownloadError::ProtocolViolation(s) => {
                let r = String::from_str("server ignored range request: HTTP ").concat(
                    format_u64(*s as u64).as_str(),
                );
                r
            },
        }
    }
}

} // verus!
