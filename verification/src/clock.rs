//! The wall clock.
//!
//! The auction state machine — active until the end date, ended after it —
//! is derived by comparing stored end dates against the current time; this
//! is the one place the library reads that time.

use vstd::prelude::*;

verus! {

/// Read the current time as whole seconds since the Unix epoch.
///
/// Relies on `chrono::Utc::now` and `chrono::DateTime::timestamp`: the
/// current wall-clock time in UTC, as a second count. Nothing can be
/// promised of the clock's value.
#[verifier::external_body]
pub(crate) fn now_timestamp() -> i64 {
    chrono::Utc::now().timestamp()
}

} // verus!
