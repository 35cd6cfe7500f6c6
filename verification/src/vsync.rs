//! The vsync-wait decision.
//!
//! The callback runs on a host-owned, latency-sensitive thread. The
//! only blocking work it may do is one sleep, and only when the
//! render-latency optimization is switched on; with the flag off it
//! must return at once, whatever the session context would report
//! about the next vsync.

use vstd::prelude::*;

verus! {

/// How long a vsync-wait call should sleep, in nanoseconds, given the
/// optimization flag and what the session context reported as the
/// duration until the next vsync (absent when no session exists or the
/// session has no estimate). `None` means: do not sleep at all.
pub fn vsync_sleep_duration(optimize_latency: bool, reported_ns: Option<u64>) -> (r: Option<
    u64,
>)
    ensures
        !optimize_latency ==> r is None,
        optimize_latency ==> r == reported_ns,
{
    if optimize_latency {
        reported_ns
    } else {
        None
    }
}

} // verus!
