//! The one place the library reads the wall clock.

use vstd::prelude::*;

verus! {

/// Relies on chrono's `Utc::now` and `DateTime::timestamp`: the current
/// wall-clock time as whole seconds since the Unix epoch. Nothing is
/// promised of the value; callers treat every reading as possible.
#[verifier::external_body]
pub(crate) fn now_epoch_seconds() -> (r: i64) {
    chrono::Utc::now().timestamp()
}

} // verus!
