//! Measuring the rate of a loop and holding it to a target.
use vstd::prelude::*;
use crate::report::{Rate, RateView};
use crate::sleeper::{Sleep, SleepView, SpinSleeper, SpinSleeperView};
use crate::time::{Duration, Instant, saturating_diff, saturating_sum};

verus! {

/// The report interval of a helper built without one, in seconds.
pub const DEFAULT_REPORT_INTERVAL_SECS: u64 = 1;

/// Measures how fast a loop runs and slows it down to a target.
///
/// The loop tells the helper when a pass begins, asks it for the wait that
/// fills the pass up to the target, and asks it now and then for the mean rate
/// since the last report.
///
/// The target is held as the time one pass should take. A target of no time
/// at all stands for a loop that is not slowed down.
#[derive(Debug, Clone, PartialEq, Eq)]
pub struct LoopHelper {
    target_delta: Duration,
    report_interval: Duration,
    sleeper: SpinSleeper,
    last_loop_start: Instant,
    last_report: Instant,
    delta_sum: Duration,
    delta_count: u32,
}

/// A [`LoopHelper`] as contracts see it.
pub struct LoopHelperView {
    /// The time one pass should take, in nanoseconds; zero for no target.
    pub target_delta: nat,
    /// The least time between two reports, in nanoseconds.
    pub report_interval: nat,
    /// The sleeper that fills a pass up to the target.
    pub sleeper: SpinSleeperView,
    /// The reading at which the current pass began.
    pub last_loop_start: nat,
    /// The reading of the last report.
    pub last_report: nat,
    /// The time taken by the passes since the last report, in nanoseconds.
    pub delta_sum: nat,
    /// The number of passes since the last report.
    pub delta_count: nat,
}

impl View for LoopHelper {
    type V = LoopHelperView;

    closed spec fn view(&self) -> LoopHelperView {
        LoopHelperView {
            target_delta: self.target_delta@,
            report_interval: self.report_interval@,
            sleeper: self.sleeper@,
            last_loop_start: self.last_loop_start@,
            last_report: self.last_report@,
            delta_sum: self.delta_sum@,
            delta_count: self.delta_count as nat,
        }
    }
}

/// Collects the settings of a [`LoopHelper`].
#[derive(Debug, Clone, Copy, PartialEq, Eq)]
pub struct LoopHelperBuilder {
    report_interval: Option<Duration>,
    sleeper: Option<SpinSleeper>,
}

/// A [`LoopHelperBuilder`] as contracts see it.
pub struct LoopHelperBuilderView {
    /// The report interval in nanoseconds, where one was set.
    pub report_interval: Option<nat>,
    /// The sleeper, where an accuracy was set.
    pub sleeper: Option<SpinSleeperView>,
}

impl View for LoopHelperBuilder {
    type V = LoopHelperBuilderView;

    closed spec fn view(&self) -> LoopHelperBuilderView {
        LoopHelperBuilderView {
            report_interval: match self.report_interval {
                Some(interval) => Some(interval@),
                None => None,
            },
            sleeper: match self.sleeper {
                Some(sleeper) => Some(sleeper@),
                None => None,
            },
        }
    }
}

impl LoopHelperBuilderView {
    /// The helper that these settings give for a pass of `target_delta`
    /// nanoseconds, begun at the reading `now`: what was not set is the
    /// default, one second between reports and the default sleeper.
    pub open spec fn built(self, target_delta: nat, now: nat) -> LoopHelperView {
        LoopHelperView {
            target_delta,
            report_interval: match self.report_interval {
                Some(interval) => interval,
                None => DEFAULT_REPORT_INTERVAL_SECS as nat * 1_000_000_000,
            },
            sleeper: match self.sleeper {
                Some(sleeper) => sleeper,
                None => SpinSleeperView::default_view(),
            },
            last_loop_start: now,
            last_report: now,
            delta_sum: 0,
            delta_count: 0,
        }
    }
}

impl LoopHelperView {
    /// The time since the current pass began, at the reading `now`; nothing if
    /// the clock has stepped back behind it.
    pub open spec fn delta(self, now: nat) -> nat {
        saturating_diff(now, self.last_loop_start)
    }

    /// The helper after a pass began at the reading `now`: the pass before it
    /// is added to the sum, which stops at the largest time it can hold, and
    /// is counted, with a count that starts over at zero once it has passed
    /// the largest number it can hold.
    pub open spec fn after_loop_start(self, now: nat) -> LoopHelperView {
        LoopHelperView {
            last_loop_start: now,
            delta_sum: saturating_sum(self.delta_sum, self.delta(now)),
            delta_count: if self.delta_count < u32::MAX {
                self.delta_count + 1
            } else {
                0
            },
            ..self
        }
    }

    /// How long the current pass still has to wait at the reading `now` to
    /// fill the target: nothing to wait for where the pass has taken the
    /// target or longer, which is always so where there is no target.
    pub open spec fn wait(self, now: nat) -> Option<nat> {
        if self.delta(now) < self.target_delta {
            Some((self.target_delta - self.delta(now)) as nat)
        } else {
            None
        }
    }

    /// The hybrid sleep that fills the current pass up to the target, begun at
    /// the reading `now`.
    pub open spec fn sleep(self, now: nat) -> Option<SleepView> {
        match self.wait(now) {
            Some(wait) => Some(self.sleeper.begin(wait, now)),
            None => None,
        }
    }

    /// Whether a report is due at the reading `now`: the last one is at least
    /// one report interval back and a pass has been counted since.
    pub open spec fn report_due(self, now: nat) -> bool {
        saturating_diff(now, self.last_report) >= self.report_interval && self.delta_count > 0
    }

    /// What a report asked for at the reading `now` returns: nothing before it
    /// is due, then the passes counted over the time they took.
    pub open spec fn reading(self, now: nat) -> Option<RateView> {
        if self.report_due(now) {
            Some(RateView { count: self.delta_count, elapsed: self.delta_sum })
        } else {
            None
        }
    }

    /// The helper after a report was asked for at the reading `now`: sum and
    /// count start over where the report was due, and nothing changes where
    /// it was not.
    pub open spec fn after_report(self, now: nat) -> LoopHelperView {
        if self.report_due(now) {
            LoopHelperView { last_report: now, delta_sum: 0, delta_count: 0, ..self }
        } else {
            self
        }
    }
}

/// A helper without a target never waits, whatever the clock reads.
pub proof fn lemma_no_target_no_wait(helper: LoopHelperView, now: nat)
    requires
        helper.target_delta == 0,
    ensures
        helper.wait(now) is None,
        helper.sleep(now) is None,
{
}

/// A wait for the target ends where the target is met: it is more than
/// nothing, no longer than the target, and together with the time the pass
/// has taken it makes up the target exactly.
pub proof fn lemma_wait_fills_target(helper: LoopHelperView, now: nat)
    requires
        helper.wait(now) is Some,
    ensures
        0 < helper.wait(now)->Some_0 <= helper.target_delta,
        helper.delta(now) + helper.wait(now)->Some_0 == helper.target_delta,
{
}

impl LoopHelperBuilder {
    /// Sets the least time between two reports.
    pub fn report_interval(self, duration: Duration) -> (r: LoopHelperBuilder)
        ensures
            r@ == (LoopHelperBuilderView { report_interval: Some(duration@), ..self@ }),
    {
        LoopHelperBuilder { report_interval: Some(duration), sleeper: self.sleeper }
    }

    /// Sets the native sleep accuracy of the helper's sleeper, in nanoseconds.
    ///
    /// Set this for the same behavior wherever the helper runs, and tune it
    /// for the system at hand.
    pub fn native_accuracy_ns(self, accuracy: u32) -> (r: LoopHelperBuilder)
        ensures
            r@ == (LoopHelperBuilderView {
                sleeper: Some(
                    SpinSleeperView {
                        native_accuracy_ns: accuracy as nat,
                        ..SpinSleeperView::default_view()
                    },
                ),
                ..self@
            }),
    {
        LoopHelperBuilder {
            report_interval: self.report_interval,
            sleeper: Some(SpinSleeper::new(accuracy)),
        }
    }

    /// Sets the helper's sleeper as a whole, spin strategy included.
    pub fn spin_sleeper(self, sleeper: SpinSleeper) -> (r: LoopHelperBuilder)
        ensures
            r@ == (LoopHelperBuilderView { sleeper: Some(sleeper@), ..self@ }),
    {
        LoopHelperBuilder { report_interval: self.report_interval, sleeper: Some(sleeper) }
    }

    /// Builds a helper without a target, whose first pass begins at the clock
    /// reading `now`. It never waits; it serves to report the rate.
    pub fn build_without_target_rate(self, now: Instant) -> (r: LoopHelper)
        ensures
            r@ == self@.built(0, now@),
    {
        self.build_with_target_delta(Duration::zero(), now)
    }

    /// Builds a helper that holds each pass to `target_delta`, whose first
    /// pass begins at the clock reading `now`.
    ///
    /// The target shows only in [`LoopHelper::loop_sleep`] and
    /// [`LoopHelper::loop_sleep_no_spin`].
    pub fn build_with_target_delta(self, target_delta: Duration, now: Instant) -> (r: LoopHelper)
        ensures
            r@ == self@.built(target_delta@, now@),
    {
        let interval = match self.report_interval {
            Some(interval) => interval,
            None => Duration::from_secs(DEFAULT_REPORT_INTERVAL_SECS),
        };
        let sleeper = match self.sleeper {
            Some(sleeper) => sleeper,
            None => SpinSleeper::default(),
        };
        LoopHelper {
            target_delta,
            report_interval: interval,
            sleeper,
            last_report: now,
            last_loop_start: now,
            delta_sum: Duration::zero(),
            delta_count: 0,
        }
    }
}

impl LoopHelper {
    /// A builder with nothing set.
    pub fn builder() -> (r: LoopHelperBuilder)
        ensures
            r@ == (LoopHelperBuilderView { report_interval: None, sleeper: None }),
    {
        LoopHelperBuilder { report_interval: None, sleeper: None }
    }

    /// Tells the helper that a pass begins at the clock reading `now`, and
    /// returns the time since the pass before it began.
    pub fn loop_start(&mut self, now: Instant) -> (r: Duration)
        ensures
            r@ == old(self)@.delta(now@),
            final(self)@ == old(self)@.after_loop_start(now@),
    {
        let delta = now.saturating_duration_since(self.last_loop_start);
        self.last_loop_start = now;
        self.delta_sum = self.delta_sum.saturating_add(delta);
        self.delta_count = self.delta_count.wrapping_add(1);
        delta
    }

    /// Returns the hybrid sleep that fills the current pass up to the target,
    /// begun at the clock reading `now`; none where the pass has already
    /// taken that long. The helper does not change.
    pub fn loop_sleep(&mut self, now: Instant) -> (r: Option<Sleep>)
        ensures
            r is Some <==> old(self)@.sleep(now@) is Some,
            r is Some ==> old(self)@.sleep(now@) == Some(r->Some_0@),
            final(self)@ == old(self)@,
    {
        let elapsed = now.saturating_duration_since(self.last_loop_start);
        if elapsed.as_nanos() < self.target_delta.as_nanos() {
            Some(self.sleeper.sleep(self.target_delta.saturating_sub(elapsed), now))
        } else {
            None
        }
    }

    /// Returns the native sleep that fills the current pass up to the target
    /// at the clock reading `now`, with no spin after it: less accurate than
    /// [`Self::loop_sleep`], and lighter. None where the pass has already
    /// taken that long. The helper does not change.
    pub fn loop_sleep_no_spin(&mut self, now: Instant) -> (r: Option<Duration>)
        ensures
            r is Some <==> old(self)@.wait(now@) is Some,
            r is Some ==> old(self)@.wait(now@) == Some(r->Some_0@),
            final(self)@ == old(self)@,
    {
        let elapsed = now.saturating_duration_since(self.last_loop_start);
        if elapsed.as_nanos() < self.target_delta.as_nanos() {
            Some(self.target_delta.saturating_sub(elapsed))
        } else {
            None
        }
    }

    /// Returns the mean rate of the passes since the last report, and starts
    /// over, if the last report is at least one report interval back at the
    /// clock reading `now` and a pass has been counted since. Else it returns
    /// nothing and changes nothing.
    pub fn report_rate(&mut self, now: Instant) -> (r: Option<Rate>)
        ensures
            r is Some <==> old(self)@.report_due(now@),
            r is Some ==> old(self)@.reading(now@) == Some(r->Some_0@),
            final(self)@ == old(self)@.after_report(now@),
    {
        let since_report = now.saturating_duration_since(self.last_report);
        if since_report.as_nanos() >= self.report_interval.as_nanos() && self.delta_count > 0 {
            let report = Rate { count: self.delta_count, elapsed: self.delta_sum };
            self.delta_sum = Duration::zero();
            self.delta_count = 0;
            self.last_report = now;
            Some(report)
        } else {
            None
        }
    }

    /// Sets the time one pass should take; no time at all for no target.
    pub fn set_target_delta(&mut self, target_delta: Duration)
        ensures
            final(self)@ == (LoopHelperView { target_delta: target_delta@, ..old(self)@ }),
    {
        self.target_delta = target_delta;
    }

    /// The time one pass should take; no time at all for no target.
    pub fn target_delta(&self) -> (r: Duration)
        ensures
            r@ == self@.target_delta,
    {
        self.target_delta
    }
}

} // verus!
