//! Wall-clock access. Both readings depend on the moment of the call, so
//! nothing is promised of their results; every caller states what holds of
//! its own result whatever the clock returned.

use vstd::prelude::*;

verus! {

/// Relies on chrono::Local::now and chrono::DateTime::timestamp_millis: the
/// current wall-clock time as milliseconds since the Unix epoch, clamped to
/// zero for times before the epoch.
#[verifier::external_body]
pub(crate) fn now_millis() -> u64 {
    let ms = chrono::Local::now().timestamp_millis();
    if ms < 0 {
        0
    } else {
        ms as u64
    }
}

/// Relies on chrono::Local::now and chrono::DateTime::format with a fixed,
/// valid strftime pattern: the current local time rendered as
/// `YYYY-MM-DD HH:MM:SS.mmm`.
#[verifier::external_body]
pub(crate) fn local_timestamp() -> String {
    chrono::Local::now().format("%Y-%m-%d %H:%M:%S.%3f").to_string()
}

} // verus!
