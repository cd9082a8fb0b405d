//! The arithmetic behind native sleeping on Windows: the units of a waitable
//! timer, and how far each of the two native sleeps there can be trusted.
use vstd::prelude::*;
use crate::time::Duration;

verus! {

/// Nanoseconds in one interval of a waitable timer.
pub const NANOS_PER_INTERVAL: u128 = 100;

/// The accuracy of a sleep on a high-resolution waitable timer, in
/// nanoseconds. Such a timer is fast on average and late now and then; this
/// much kept for spinning covers most of that unless the system is loaded.
pub const HIGH_RES_SLEEP_ACCURACY: u32 = 700_000;

/// Nanoseconds in one millisecond, the unit of the system timer's period.
pub const NANOS_PER_MILLI: u32 = 1_000_000;

/// The whole timer intervals in `nanos` nanoseconds.
pub open spec fn intervals(nanos: nat) -> nat {
    nanos / (NANOS_PER_INTERVAL as nat)
}

/// The span in timer intervals of 100 nanoseconds each, rounded down, or
/// nothing where that number does not fit.
pub fn checked_dur2intervals(dur: &Duration) -> (r: Option<i64>)
    ensures
        intervals(dur@) <= i64::MAX ==> r == Some(intervals(dur@) as i64),
        intervals(dur@) > i64::MAX ==> r is None,
{
    let whole: u128 = dur.as_nanos() / NANOS_PER_INTERVAL;
    if whole <= 0x7fff_ffff_ffff_ffff {
        Some(whole as i64)
    } else {
        None
    }
}

/// The native sleep accuracy to configure, in nanoseconds: that of the
/// high-resolution timer where there is one, else the system timer's least
/// period, `min_time_period` milliseconds.
pub fn sleep_accuracy(high_res_timer: bool, min_time_period: u32) -> (r: u32)
    requires
        !high_res_timer ==> min_time_period * NANOS_PER_MILLI <= u32::MAX,
    ensures
        high_res_timer ==> r == HIGH_RES_SLEEP_ACCURACY,
        !high_res_timer ==> r == min_time_period * NANOS_PER_MILLI,
{
    if high_res_timer {
        HIGH_RES_SLEEP_ACCURACY
    } else {
        min_time_period * NANOS_PER_MILLI
    }
}

} // verus!
