//! Access to the wall clock, and the clamp that keeps timestamp
//! arithmetic inside the library free of overflow.

use vstd::prelude::*;

verus! {

/// Upper bound on every clock reading the library works with, far beyond
/// any realistic wall-clock time in milliseconds; it leaves ample headroom
/// below `u64::MAX` for adding backoff delays and retention periods.
pub const MAX_CLOCK_MS: u64 = 0x4000_0000_0000_0000;

/// Relies on chrono's `Utc::now` and `DateTime::timestamp_millis`: the
/// current wall-clock time as milliseconds since the Unix epoch. Nothing
/// is assumed of the value; callers clamp it before doing arithmetic.
#[verifier::external_body]
fn now_millis_raw() -> i64 {
    chrono::Utc::now().timestamp_millis()
}

/// The current wall-clock time in milliseconds since the Unix epoch,
/// clamped into `0 ..= MAX_CLOCK_MS` so that adding any backoff delay or
/// retention period cannot overflow.
pub fn current_time_millis() -> (now_ms: u64)
    ensures
        now_ms <= MAX_CLOCK_MS,
{
    let raw = now_millis_raw();
    if raw < 0 {
        0
    } else {
        let v = raw as u64;
        if v > MAX_CLOCK_MS {
            MAX_CLOCK_MS
        } else {
            v
        }
    }
}

} // verus!
