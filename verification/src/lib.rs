//! Accurate sleeping, as decisions.
//!
//! A native sleep is cheap but wakes late; spinning on the clock is exact but
//! burns a core. This library plans the middle ground: it trusts the native
//! sleep for all but a configured margin of a wait and spins through the rest.
//!
//! Nothing in here reads a clock or blocks a thread. Every operation takes the
//! current clock reading as an argument and answers with the next thing to do,
//! so the caller owns the clock, the native sleep and the spin hint, and the
//! timing rules themselves are proved for every reading a clock can give.
pub mod time;
pub mod sleeper;
pub mod interval;
pub mod loop_helper;
pub mod report;
pub mod windows;

pub use crate::interval::{
    interval, interval_at, Interval, IntervalError, IntervalView, MissedTickBehavior, Tick,
};
pub use crate::loop_helper::{
    LoopHelper, LoopHelperBuilder, LoopHelperBuilderView, LoopHelperView,
    DEFAULT_REPORT_INTERVAL_SECS,
};
pub use crate::report::{Rate, RateReporter, RateReporterView, RateView};
pub use crate::sleeper::{
    sleep, Sleep, SleepPhase, SleepStep, SleepStepView, SleepView, SpinSleeper, SpinSleeperView,
    SpinStrategy, DEFAULT_NATIVE_SLEEP_ACCURACY,
};
pub use crate::time::{Duration, Instant, MAX_NANOS};
