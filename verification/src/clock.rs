//! The one ambient value the service reads: the current UTC time.
//! Every decision function takes the time as an argument; this module
//! is how callers obtain it.

use vstd::prelude::*;

verus! {

/// Relies on chrono's `Utc::now`, read out with `timestamp` as whole
/// seconds since the Unix epoch. The value depends on the wall clock,
/// so nothing can be promised of it.
#[verifier::external_body]
fn now_utc_seconds() -> i64 {
    chrono::Utc::now().timestamp()
}

/// An epoch offset clamped to the unsigned range the library's
/// timestamps use: instants before the epoch collapse to zero.
pub open spec fn clamp_epoch_spec(t: i64) -> u64 {
    if t <= 0 {
        0u64
    } else {
        t as u64
    }
}

/// Clamp an epoch offset into a library timestamp.
pub fn clamp_epoch_seconds(t: i64) -> (r: u64)
    ensures
        r == clamp_epoch_spec(t),
{
    if t <= 0 {
        0
    } else {
        t as u64
    }
}

/// The current time as a library timestamp. The clock is ambient, so
/// no two calls are related; whatever instant comes back, the
/// functions that take it are verified for it.
pub fn current_time_seconds() -> u64 {
    clamp_epoch_seconds(now_utc_seconds())
}

} // verus!
