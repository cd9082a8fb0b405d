//! Spans of time and clock readings, both counted in whole nanoseconds.
use vstd::prelude::*;

verus! {

/// The largest count of nanoseconds that a [`Duration`] or an [`Instant`] holds.
pub const MAX_NANOS: u128 = 0xffff_ffff_ffff_ffff_ffff_ffff_ffff_ffff;

/// Nanoseconds in one second.
pub const NANOS_PER_SEC: u128 = 1_000_000_000;

/// Nanoseconds in one millisecond.
pub const NANOS_PER_MILLI: u128 = 1_000_000;

/// `n`, held at [`MAX_NANOS`].
pub open spec fn saturated(n: nat) -> nat {
    if n > MAX_NANOS {
        MAX_NANOS as nat
    } else {
        n
    }
}

/// `a + b`, held at [`MAX_NANOS`].
pub open spec fn saturating_sum(a: nat, b: nat) -> nat {
    saturated(a + b)
}

/// `a - b`, held at zero.
pub open spec fn saturating_diff(a: nat, b: nat) -> nat {
    if a >= b {
        (a - b) as nat
    } else {
        0
    }
}

/// A span of time: a whole number of nanoseconds, at most [`MAX_NANOS`].
///
/// Its view is that number.
#[derive(Debug, Clone, Copy, PartialEq, Eq, PartialOrd, Ord, Hash, Structural)]
pub struct Duration {
    nanos: u128,
}

impl View for Duration {
    type V = nat;

    closed spec fn view(&self) -> nat {
        self.nanos as nat
    }
}

impl Duration {
    /// The empty span.
    pub fn zero() -> (r: Duration)
        ensures
            r@ == 0,
    {
        Duration { nanos: 0 }
    }

    /// A span of `secs` seconds and `subsec_nanos` nanoseconds. Nanoseconds
    /// beyond a second carry over; nothing is lost.
    pub fn new(secs: u64, subsec_nanos: u32) -> (r: Duration)
        ensures
            r@ == secs * NANOS_PER_SEC + subsec_nanos,
    {
        let secs_wide: u128 = secs as u128;
        let nanos_wide: u128 = subsec_nanos as u128;
        Duration { nanos: secs_wide * NANOS_PER_SEC + nanos_wide }
    }

    /// A span of `secs` seconds.
    pub fn from_secs(secs: u64) -> (r: Duration)
        ensures
            r@ == secs * NANOS_PER_SEC,
    {
        let wide: u128 = secs as u128;
        Duration { nanos: wide * NANOS_PER_SEC }
    }

    /// A span of `millis` milliseconds.
    pub fn from_millis(millis: u64) -> (r: Duration)
        ensures
            r@ == millis * NANOS_PER_MILLI,
    {
        let wide: u128 = millis as u128;
        Duration { nanos: wide * NANOS_PER_MILLI }
    }

    /// A span of `nanos` nanoseconds.
    pub fn from_nanos(nanos: u64) -> (r: Duration)
        ensures
            r@ == nanos,
    {
        Duration { nanos: nanos as u128 }
    }

    /// A span of `nanos` nanoseconds, over the full range.
    pub fn from_nanos_u128(nanos: u128) -> (r: Duration)
        ensures
            r@ == nanos,
    {
        Duration { nanos }
    }

    /// The span in nanoseconds.
    pub fn as_nanos(&self) -> (r: u128)
        ensures
            r == self@,
    {
        self.nanos
    }

    /// Whether the span is empty.
    pub fn is_zero(&self) -> (r: bool)
        ensures
            r <==> self@ == 0,
    {
        self.nanos == 0
    }

    /// The two spans end to end, held at [`MAX_NANOS`].
    pub fn saturating_add(self, rhs: Duration) -> (r: Duration)
        ensures
            r@ == saturating_sum(self@, rhs@),
    {
        Duration { nanos: self.nanos.saturating_add(rhs.nanos) }
    }

    /// What is left of the span after `rhs`, held at zero.
    pub fn saturating_sub(self, rhs: Duration) -> (r: Duration)
        ensures
            r@ == saturating_diff(self@, rhs@),
    {
        Duration { nanos: self.nanos.saturating_sub(rhs.nanos) }
    }
}

/// A reading of a monotonic clock: the nanoseconds that have passed since the
/// clock's origin, which whoever owns the clock fixes once.
///
/// Its view is that number.
#[derive(Debug, Clone, Copy, PartialEq, Eq, PartialOrd, Ord, Hash, Structural)]
pub struct Instant {
    nanos: u128,
}

impl View for Instant {
    type V = nat;

    closed spec fn view(&self) -> nat {
        self.nanos as nat
    }
}

impl Instant {
    /// The reading `nanos` nanoseconds after the clock's origin.
    pub fn from_nanos(nanos: u128) -> (r: Instant)
        ensures
            r@ == nanos,
    {
        Instant { nanos }
    }

    /// Nanoseconds since the clock's origin.
    pub fn as_nanos(&self) -> (r: u128)
        ensures
            r == self@,
    {
        self.nanos
    }

    /// The time from `earlier` to this reading, or nothing if `earlier` is in
    /// fact the later one: a clock that steps back never yields a negative or
    /// wrapped span.
    pub fn saturating_duration_since(&self, earlier: Instant) -> (r: Duration)
        ensures
            r@ == saturating_diff(self@, earlier@),
    {
        Duration::from_nanos_u128(self.nanos.saturating_sub(earlier.nanos))
    }

    /// The reading `span` later, held at [`MAX_NANOS`].
    pub fn saturating_add(&self, span: Duration) -> (r: Instant)
        ensures
            r@ == saturating_sum(self@, span@),
    {
        Instant { nanos: self.nanos.saturating_add(span.as_nanos()) }
    }
}

} // verus!
