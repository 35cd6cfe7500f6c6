//! Haptics dispatch: turning the plain values the host hands in into a
//! command for the session context.
//!
//! The host reports the pulse duration as a signed count of
//! nanoseconds; a negative duration is clamped to zero before anything
//! is forwarded. Frequency and amplitude are carried through untouched
//! as the raw bit patterns of the host's 32-bit values.

use crate::slot::ContextSlot;
use vstd::prelude::*;

verus! {

/// One haptic pulse, immutable once constructed, passed by value into
/// the session context.
#[derive(Clone, Copy, Debug, PartialEq, Eq, Structural)]
pub struct HapticsCommand {
    /// The target device.
    pub device_id: u64,
    /// Pulse duration in nanoseconds, already clamped to non-negative.
    pub duration_ns: u64,
    /// Raw bits of the host's frequency value, forwarded untouched.
    pub frequency_bits: u32,
    /// Raw bits of the host's amplitude value, forwarded untouched.
    pub amplitude_bits: u32,
}

/// The duration actually forwarded for a requested duration of
/// `duration_ns` nanoseconds: negative requests are floored to zero,
/// non-negative ones pass through unchanged.
pub open spec fn clamped_duration(duration_ns: i64) -> u64 {
    if duration_ns < 0 {
        0
    } else {
        duration_ns as u64
    }
}

/// Builds the command that a haptics request with these values
/// forwards: the duration clamped to non-negative, everything else
/// taken as given.
pub fn make_haptics_command(
    device_id: u64,
    duration_ns: i64,
    frequency_bits: u32,
    amplitude_bits: u32,
) -> (c: HapticsCommand)
    ensures
        c.device_id == device_id,
        c.duration_ns == clamped_duration(duration_ns),
        c.frequency_bits == frequency_bits,
        c.amplitude_bits == amplitude_bits,
{
    let duration: u64 = if duration_ns < 0 {
        0
    } else {
        duration_ns as u64
    };
    HapticsCommand { device_id, duration_ns: duration, frequency_bits, amplitude_bits }
}

/// Decides a haptics callback: returns the command to forward to the
/// session context, or nothing — the silent no-op — when the slot no
/// longer holds one.
pub fn dispatch_haptics<T>(
    slot: &ContextSlot<T>,
    device_id: u64,
    duration_ns: i64,
    frequency_bits: u32,
    amplitude_bits: u32,
) -> (r: Option<HapticsCommand>)
    ensures
        r is Some <==> slot.is_active(),
        r matches Some(c) ==> c == (HapticsCommand {
            device_id,
            duration_ns: clamped_duration(duration_ns),
            frequency_bits,
            amplitude_bits,
        }),
{
    if slot.has_context() {
        Some(make_haptics_command(device_id, duration_ns, frequency_bits, amplitude_bits))
    } else {
        None
    }
}

} // verus!
