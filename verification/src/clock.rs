//! The wall clock.

use vstd::prelude::*;

verus! {

/// Relies on chrono::Utc::now for the current time as whole seconds since
/// the Unix epoch.  Nothing is assumed of the value: callers state what
/// holds whatever the clock reports.
#[verifier::external_body]
pub(crate) fn now_ts() -> i64 {
    chrono::Utc::now().timestamp()
}

} // verus!
