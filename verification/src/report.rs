//! Counting events and reporting their mean rate once per period.
use vstd::prelude::*;
use crate::time::{Duration, Instant, saturating_diff};

verus! {

/// A mean rate, held exactly: `count` events in the time `elapsed`. In events
/// per second it is `count` divided by `elapsed` in seconds.
#[derive(Debug, Clone, Copy, PartialEq, Eq, Hash)]
pub struct Rate {
    /// The events counted.
    pub count: u32,
    /// The time over which they were counted.
    pub elapsed: Duration,
}

/// A [`Rate`] as contracts see it.
pub struct RateView {
    /// The events counted.
    pub count: nat,
    /// The time over which they were counted, in nanoseconds.
    pub elapsed: nat,
}

impl View for Rate {
    type V = RateView;

    open spec fn view(&self) -> RateView {
        RateView { count: self.count as nat, elapsed: self.elapsed@ }
    }
}

/// Counts events and reports their mean rate, at most once per report period.
#[derive(Debug)]
pub struct RateReporter {
    report_period: Duration,
    start: Instant,
    rate_count: u32,
}

/// A [`RateReporter`] as contracts see it.
pub struct RateReporterView {
    /// The least time between two reports, in nanoseconds.
    pub report_period: nat,
    /// The reading at which the current window began.
    pub start: nat,
    /// The events counted in the current window.
    pub rate_count: nat,
}

impl View for RateReporter {
    type V = RateReporterView;

    closed spec fn view(&self) -> RateReporterView {
        RateReporterView {
            report_period: self.report_period@,
            start: self.start@,
            rate_count: self.rate_count as nat,
        }
    }
}

impl RateReporterView {
    /// The reporter after one more event: the count goes up by one and stops
    /// at the largest count it can hold.
    pub open spec fn after_increment(self) -> RateReporterView {
        RateReporterView {
            rate_count: if self.rate_count < u32::MAX {
                self.rate_count + 1
            } else {
                self.rate_count
            },
            ..self
        }
    }

    /// The reporter after `events` more events.
    pub open spec fn after_increments(self, events: nat) -> RateReporterView
        decreases events,
    {
        if events == 0 {
            self
        } else {
            self.after_increments((events - 1) as nat).after_increment()
        }
    }

    /// The time since the current window began, at the reading `now`.
    pub open spec fn elapsed(self, now: nat) -> nat {
        saturating_diff(now, self.start)
    }

    /// Whether a report is due at the reading `now`: the window is at least
    /// one report period old.
    pub open spec fn due(self, now: nat) -> bool {
        self.elapsed(now) >= self.report_period
    }

    /// What a report asked for at the reading `now` returns: nothing before it
    /// is due, then the events counted over the age of the window.
    pub open spec fn reading(self, now: nat) -> Option<RateView> {
        if self.due(now) {
            Some(RateView { count: self.rate_count, elapsed: self.elapsed(now) })
        } else {
            None
        }
    }

    /// The reporter after a report was asked for at the reading `now`: a new,
    /// empty window from `now` on where the report was due, and no change
    /// where it was not.
    pub open spec fn after_report(self, now: nat) -> RateReporterView {
        if self.due(now) {
            self.after_reset(now)
        } else {
            self
        }
    }

    /// The reporter with a new, empty window from the reading `now` on.
    pub open spec fn after_reset(self, now: nat) -> RateReporterView {
        RateReporterView { start: now, rate_count: 0, ..self }
    }
}

/// Events are counted one by one: a window that held `held` events holds
/// `held + events` after `events` more, as long as that number fits the count.
pub proof fn lemma_increments_add_up(reporter: RateReporterView, events: nat)
    requires
        reporter.rate_count + events <= u32::MAX,
    ensures
        reporter.after_increments(events) == (RateReporterView {
            rate_count: reporter.rate_count + events,
            ..reporter
        }),
    decreases events,
{
    if events > 0 {
        lemma_increments_add_up(reporter, (events - 1) as nat);
    }
}

/// A report is exact. After `events` events in a new window, a report asked
/// for when the window is `age` old, with `age` at least the report period,
/// returns `events` over `age`, and leaves a new, empty window that begins at
/// that reading.
///
/// This holds as long as `events` fits the count.
pub proof fn lemma_report_is_exact(reporter: RateReporterView, events: nat, age: nat)
    requires
        reporter.rate_count == 0,
        events <= u32::MAX,
        age >= reporter.report_period,
    ensures
        ({
            let now = reporter.start + age;
            let counted = reporter.after_increments(events);
            &&& counted.reading(now) == Some(RateView { count: events, elapsed: age })
            &&& counted.after_report(now) == (RateReporterView {
                start: now,
                rate_count: 0,
                ..reporter
            })
        }),
{
    lemma_increments_add_up(reporter, events);
}

impl RateReporter {
    /// A reporter whose first window begins at the clock reading `now` and
    /// that reports no more often than once per `report_period`.
    pub fn new(report_period: Duration, now: Instant) -> (r: RateReporter)
        ensures
            r@ == (RateReporterView { report_period: report_period@, start: now@, rate_count: 0 }),
    {
        RateReporter { report_period, start: now, rate_count: 0 }
    }

    /// Counts one event.
    pub fn increment(&mut self)
        ensures
            final(self)@ == old(self)@.after_increment(),
    {
        self.rate_count = self.rate_count.saturating_add(1);
    }

    /// Returns the mean rate of the current window and begins a new one at the
    /// clock reading `now`, if the window is at least one report period old.
    /// Before that it returns nothing and changes nothing.
    pub fn report(&mut self, now: Instant) -> (r: Option<Rate>)
        ensures
            r is Some <==> old(self)@.due(now@),
            r is Some ==> old(self)@.reading(now@) == Some(r->Some_0@),
            final(self)@ == old(self)@.after_report(now@),
    {
        let elapsed = now.saturating_duration_since(self.start);
        if elapsed.as_nanos() < self.report_period.as_nanos() {
            return None;
        }
        let report = Rate { count: self.rate_count, elapsed };
        self.rate_count = 0;
        self.start = now;
        Some(report)
    }

    /// Counts one event, then reports as [`Self::report`] does.
    pub fn increment_and_report(&mut self, now: Instant) -> (r: Option<Rate>)
        ensures
            r is Some <==> old(self)@.after_increment().due(now@),
            r is Some ==> old(self)@.after_increment().reading(now@) == Some(r->Some_0@),
            final(self)@ == old(self)@.after_increment().after_report(now@),
    {
        self.increment();
        self.report(now)
    }

    /// Forgets the events counted and begins a new window at the clock reading
    /// `now`, without a report.
    pub fn reset(&mut self, now: Instant)
        ensures
            final(self)@ == old(self)@.after_reset(now@),
    {
        self.rate_count = 0;
        self.start = now;
    }
}

} // verus!
