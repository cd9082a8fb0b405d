//! Periodic ticks on top of the hybrid sleep, with a rule for ticks that were
//! missed.
use vstd::prelude::*;
use vstd::arithmetic::div_mod::lemma_fundamental_div_mod_converse;
use crate::sleeper::{Sleep, SleepView, SpinSleeper, SpinSleeperView};
use crate::time::{Duration, Instant, saturated, saturating_diff, saturating_sum, MAX_NANOS};

verus! {

/// What an [`Interval`] does about a tick whose time has passed before it was
/// asked for.
#[derive(Debug, Clone, Copy, PartialEq, Eq, Hash, Structural)]
pub enum MissedTickBehavior {
    /// Tick as fast as possible until caught up: the next tick is due one
    /// period after the missed one, so the schedule keeps its ticks and its
    /// phase.
    Burst,
    /// Start over from the moment the miss was seen: the next tick is due one
    /// period after that moment, so no tick comes early and the phase shifts.
    Delay,
    /// Drop what was missed: the next tick is due at the first instant after
    /// the miss was seen that lies a whole number of periods after the missed
    /// tick, so the phase is kept and ticks in between are lost.
    Skip,
}

impl Default for MissedTickBehavior {
    /// Skipping.
    fn default() -> (r: Self)
        ensures
            r == MissedTickBehavior::Skip,
    {
        MissedTickBehavior::Skip
    }
}

/// Why an interval could not be made.
#[derive(Debug, Clone, Copy, PartialEq, Eq, Hash, Structural)]
pub enum IntervalError {
    /// The period was zero.
    ZeroPeriod,
}

impl MissedTickBehavior {
    /// When the tick after a missed one is due, before any limit of the clock's
    /// range: `missed` is the tick that was missed, `now` the reading at which
    /// that was seen.
    pub open spec fn next_due(self, missed: nat, now: nat, period: nat) -> nat {
        match self {
            MissedTickBehavior::Burst => missed + period,
            MissedTickBehavior::Delay => now + period,
            MissedTickBehavior::Skip => (now + period - saturating_diff(now, missed)
                % period) as nat,
        }
    }

    /// When the tick after a missed one is due: [`Self::next_due`], held at
    /// [`MAX_NANOS`].
    pub fn next_tick(&self, missed_tick: Instant, now: Instant, period: Duration) -> (r: Instant)
        requires
            period@ > 0,
        ensures
            r@ == saturated(self.next_due(missed_tick@, now@, period@)),
    {
        match self {
            MissedTickBehavior::Burst => missed_tick.saturating_add(period),
            MissedTickBehavior::Delay => now.saturating_add(period),
            MissedTickBehavior::Skip => {
                let late: u128 = now.saturating_duration_since(missed_tick).as_nanos();
                let into_period: u128 = late % period.as_nanos();
                let rest: u128 = period.as_nanos() - into_period;
                now.saturating_add(Duration::from_nanos_u128(rest))
            },
        }
    }
}

/// A schedule of ticks one period apart.
#[derive(Debug)]
pub struct Interval {
    next_tick: Instant,
    period: Duration,
    missed_tick_behavior: MissedTickBehavior,
    sleeper: SpinSleeper,
}

/// An [`Interval`] as contracts see it.
pub struct IntervalView {
    /// The reading at which the next tick is due.
    pub next_tick: nat,
    /// The time from one tick to the next, in nanoseconds.
    pub period: nat,
    /// What is done about a missed tick.
    pub missed_tick_behavior: MissedTickBehavior,
    /// The sleeper that waits for a tick.
    pub sleeper: SpinSleeperView,
}

impl View for Interval {
    type V = IntervalView;

    closed spec fn view(&self) -> IntervalView {
        IntervalView {
            next_tick: self.next_tick@,
            period: self.period@,
            missed_tick_behavior: self.missed_tick_behavior,
            sleeper: self.sleeper@,
        }
    }
}

/// What [`Interval::tick`] hands back.
#[derive(Debug, Clone, Copy, PartialEq, Eq, Hash)]
pub struct Tick {
    /// The instant for which this tick was scheduled, also where it was
    /// missed.
    pub scheduled: Instant,
    /// The wait to carry out before the tick counts as delivered; none where
    /// the tick was missed.
    pub sleep: Option<Sleep>,
}

impl IntervalView {
    /// Whether the next tick has been missed at the reading `now`.
    pub open spec fn missed(self, now: nat) -> bool {
        now > self.next_tick
    }

    /// How long a tick asked for at the reading `now` has to wait: until the
    /// tick is due, and not at all where it was missed.
    pub open spec fn wait(self, now: nat) -> nat {
        saturating_diff(self.next_tick, now)
    }

    /// The wait that a tick asked for at the reading `now` hands back: none
    /// where the tick was missed, else one from `now` until the tick is due.
    pub open spec fn tick_sleep(self, now: nat) -> Option<SleepView> {
        if self.missed(now) {
            None
        } else {
            Some(self.sleeper.begin(self.wait(now), now))
        }
    }

    /// The schedule after a tick was asked for at the reading `now`.
    pub open spec fn after_tick(self, now: nat) -> IntervalView {
        let next_tick = if self.missed(now) {
            saturated(self.missed_tick_behavior.next_due(self.next_tick, now, self.period))
        } else {
            saturating_sum(self.next_tick, self.period)
        };
        IntervalView { next_tick, ..self }
    }

    /// The schedule after `count` ticks were asked for back to back, all at the
    /// reading `now`.
    pub open spec fn after_ticks(self, now: nat, count: nat) -> IntervalView
        decreases count,
    {
        if count == 0 {
            self
        } else {
            self.after_ticks(now, (count - 1) as nat).after_tick(now)
        }
    }

    /// The schedule after it was reset at the reading `now`.
    pub open spec fn after_reset(self, now: nat) -> IntervalView {
        IntervalView { next_tick: saturating_sum(now, self.period), ..self }
    }
}

/// Skipping keeps the phase. Let a schedule that skips be due for a tick that
/// lies `ticks` periods after some `origin`, and let that tick be asked for
/// `periods` whole periods and a `rest` of less than one period late. Then
/// the tick after it is due `ticks + periods + 1` periods after `origin`, a
/// whole number again, and that is the period less `rest` after the reading:
/// no two ticks of one catch-up come closer than that.
///
/// This holds as long as that instant is within the clock's range.
pub proof fn lemma_skip_keeps_phase(
    schedule: IntervalView,
    origin: nat,
    ticks: nat,
    now: nat,
    periods: nat,
    rest: nat,
)
    requires
        schedule.period > 0,
        schedule.missed_tick_behavior == MissedTickBehavior::Skip,
        schedule.next_tick == origin + ticks * schedule.period,
        now == schedule.next_tick + periods * schedule.period + rest,
        rest < schedule.period,
        now + (schedule.period - rest) <= MAX_NANOS,
    ensures
        schedule.after_tick(now).next_tick == origin + (ticks + periods + 1) * schedule.period,
        schedule.after_tick(now).next_tick == now + (schedule.period - rest),
        schedule.after_tick(now).next_tick - schedule.next_tick == (periods + 1)
            * schedule.period,
{
    let period = schedule.period as int;
    let late = periods * period + rest;
    assert((periods + 1) * period == periods * period + period) by (nonlinear_arith);
    assert((ticks + periods + 1) * period == ticks * period + (periods + 1) * period)
        by (nonlinear_arith);
    if schedule.missed(now) {
        assert(saturating_diff(now, schedule.next_tick) == late);
        lemma_fundamental_div_mod_converse(late, period, periods as int, rest as int);
    } else {
        assert(periods * period >= 0) by (nonlinear_arith)
            requires
                periods >= 0,
                period > 0,
        ;
        assert(periods * period == 0);
    }
}

/// Bursting catches up tick by tick. Let a schedule that bursts be asked for
/// its next tick when that tick is `behind` whole periods late, and let ticks
/// be asked for back to back, all at that same reading. Then the first tick
/// and the `behind` ticks after it need no wait, each scheduled one period
/// after the one before, and the tick after those is the first that waits: for
/// more than nothing and for a period at most.
///
/// `asked` counts the ticks asked for so far. This holds as long as the first
/// tick that waits is within the clock's range.
pub proof fn lemma_burst_catches_up(schedule: IntervalView, now: nat, behind: nat, asked: nat)
    requires
        schedule.period > 0,
        schedule.missed_tick_behavior == MissedTickBehavior::Burst,
        schedule.next_tick + behind * schedule.period <= now,
        now < schedule.next_tick + (behind + 1) * schedule.period,
        schedule.next_tick + (behind + 1) * schedule.period <= MAX_NANOS,
        asked <= behind + 1,
    ensures
        schedule.after_ticks(now, asked) == (IntervalView {
            next_tick: schedule.next_tick + asked * schedule.period,
            ..schedule
        }),
        asked <= behind ==> schedule.after_ticks(now, asked).wait(now) == 0,
        asked == behind + 1 ==> {
            &&& !schedule.after_ticks(now, asked).missed(now)
            &&& 0 < schedule.after_ticks(now, asked).wait(now) <= schedule.period
        },
    decreases asked,
{
    let period = schedule.period as int;
    assert((behind + 1) * period == behind * period + period) by (nonlinear_arith);
    if asked == 0 {
        assert(asked * period == 0);
        assert(behind * period >= 0) by (nonlinear_arith)
            requires
                behind >= 0,
                period > 0,
        ;
    } else {
        let before = (asked - 1) as nat;
        lemma_burst_catches_up(schedule, now, behind, before);
        assert(asked * period == before * period + period) by (nonlinear_arith)
            requires
                asked == before + 1,
        ;
        assert(asked * period <= (behind + 1) * period) by (nonlinear_arith)
            requires
                asked <= behind + 1,
                period > 0,
        ;
        if asked <= behind {
            assert(asked * period <= behind * period) by (nonlinear_arith)
                requires
                    asked <= behind,
                    period > 0,
            ;
        }
    }
}

/// An interval of `period` whose first tick is due at `now`, the current clock
/// reading, so that the first tick asked for comes at once. It skips missed
/// ticks and waits with the default sleeper.
///
/// A zero period is rejected.
pub fn interval(period: Duration, now: Instant) -> (r: Result<Interval, IntervalError>)
    ensures
        period@ == 0 ==> r == Err::<Interval, IntervalError>(IntervalError::ZeroPeriod),
        period@ > 0 ==> r is Ok && r->Ok_0@ == (IntervalView {
            next_tick: now@,
            period: period@,
            missed_tick_behavior: MissedTickBehavior::Skip,
            sleeper: SpinSleeperView::default_view(),
        }),
{
    interval_at(now, period)
}

/// An interval of `period` whose first tick is due at `start`. It skips missed
/// ticks and waits with the default sleeper.
///
/// A zero period is rejected.
pub fn interval_at(start: Instant, period: Duration) -> (r: Result<Interval, IntervalError>)
    ensures
        period@ == 0 ==> r == Err::<Interval, IntervalError>(IntervalError::ZeroPeriod),
        period@ > 0 ==> r is Ok && r->Ok_0@ == (IntervalView {
            next_tick: start@,
            period: period@,
            missed_tick_behavior: MissedTickBehavior::Skip,
            sleeper: SpinSleeperView::default_view(),
        }),
{
    if period.is_zero() {
        return Err(IntervalError::ZeroPeriod);
    }
    Ok(
        Interval {
            next_tick: start,
            period,
            missed_tick_behavior: MissedTickBehavior::default(),
            sleeper: SpinSleeper::default(),
        },
    )
}

impl Interval {
    /// Every interval has a period that is more than nothing.
    #[verifier::type_invariant]
    pub open spec fn has_period(self) -> bool {
        self@.period > 0
    }

    /// Asks for the next tick at the clock reading `now`.
    ///
    /// Where the tick is still due, the answer carries the wait until then, and
    /// the tick after it is due one period later. Where the tick was missed,
    /// there is no wait, and the missed-tick behavior says when the tick after
    /// it is due. Either way the answer names the instant the tick was
    /// scheduled for, not the reading.
    pub fn tick(&mut self, now: Instant) -> (r: Tick)
        ensures
            r.scheduled@ == old(self)@.next_tick,
            r.sleep is Some <==> old(self)@.tick_sleep(now@) is Some,
            r.sleep is Some ==> old(self)@.tick_sleep(now@) == Some(r.sleep->Some_0@),
            final(self)@ == old(self)@.after_tick(now@),
    {
        proof {
            use_type_invariant(&*self);
        }
        let tick = self.next_tick;
        if now.as_nanos() > tick.as_nanos() {
            self.next_tick = self.missed_tick_behavior.next_tick(tick, now, self.period);
            return Tick { scheduled: tick, sleep: None };
        }
        let sleep = self.sleeper.sleep(tick.saturating_duration_since(now), now);
        self.next_tick = tick.saturating_add(self.period);
        Tick { scheduled: tick, sleep: Some(sleep) }
    }

    /// Makes the next tick due one period after the clock reading `now`,
    /// whatever was scheduled.
    pub fn reset(&mut self, now: Instant)
        ensures
            final(self)@ == old(self)@.after_reset(now@),
    {
        proof {
            use_type_invariant(&*self);
        }
        self.next_tick = now.saturating_add(self.period);
    }

    /// The behavior on a missed tick.
    pub fn missed_tick_behavior(&self) -> (r: MissedTickBehavior)
        ensures
            r == self@.missed_tick_behavior,
    {
        self.missed_tick_behavior
    }

    /// The period.
    pub fn period(&self) -> (r: Duration)
        ensures
            r@ == self@.period,
            r@ > 0,
    {
        proof {
            use_type_invariant(self);
        }
        self.period
    }

    /// Sets the behavior on a missed tick.
    pub fn set_missed_tick_behavior(&mut self, behavior: MissedTickBehavior)
        ensures
            final(self)@ == (IntervalView { missed_tick_behavior: behavior, ..old(self)@ }),
    {
        proof {
            use_type_invariant(&*self);
        }
        self.missed_tick_behavior = behavior;
    }

    /// The same interval with another behavior on a missed tick.
    pub fn with_missed_tick_behavior(self, behavior: MissedTickBehavior) -> (r: Interval)
        ensures
            r@ == (IntervalView { missed_tick_behavior: behavior, ..self@ }),
    {
        proof {
            use_type_invariant(&self);
        }
        Interval {
            next_tick: self.next_tick,
            period: self.period,
            missed_tick_behavior: behavior,
            sleeper: self.sleeper,
        }
    }

    /// The sleeper that waits for a tick.
    pub fn spin_sleeper(&self) -> (r: SpinSleeper)
        ensures
            r@ == self@.sleeper,
    {
        self.sleeper
    }

    /// Sets the sleeper that waits for a tick.
    pub fn set_spin_sleeper(&mut self, sleeper: SpinSleeper)
        ensures
            final(self)@ == (IntervalView { sleeper: sleeper@, ..old(self)@ }),
    {
        proof {
            use_type_invariant(&*self);
        }
        self.sleeper = sleeper;
    }

    /// The same interval with another sleeper.
    pub fn with_spin_sleeper(self, sleeper: SpinSleeper) -> (r: Interval)
        ensures
            r@ == (IntervalView { sleeper: sleeper@, ..self@ }),
    {
        proof {
            use_type_invariant(&self);
        }
        Interval {
            next_tick: self.next_tick,
            period: self.period,
            missed_tick_behavior: self.missed_tick_behavior,
            sleeper,
        }
    }
}

} // verus!
