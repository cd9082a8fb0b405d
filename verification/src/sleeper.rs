//! The hybrid sleep: a native sleep for the bulk of a wait, then a spin on the
//! clock until the wait is over.
//!
//! A [`SpinSleeper`] holds the configuration. [`SpinSleeper::sleep`] turns a
//! wait into a [`Sleep`], and [`Sleep::step`] says, for each clock reading the
//! caller hands in, what to do next.
use vstd::prelude::*;
use crate::time::{Duration, Instant, saturating_diff};

verus! {

/// The native sleep accuracy of [`SpinSleeper::default`], in nanoseconds.
pub const DEFAULT_NATIVE_SLEEP_ACCURACY: u32 = 125_000;

/// What to do between two looks at the clock while spinning.
#[derive(Debug, Clone, Copy, PartialEq, Eq, Hash, Structural)]
#[non_exhaustive]
pub enum SpinStrategy {
    /// Nothing: look at the clock again at once.
    NoOp,
    /// Yield the thread to the scheduler.
    YieldThread,
    /// Issue the processor's spin-wait hint.
    SpinLoopHint,
}

impl Default for SpinStrategy {
    /// Yielding, which suits systems whose scheduler hands the thread back
    /// quickly.
    fn default() -> (r: Self)
        ensures
            r == SpinStrategy::YieldThread,
    {
        SpinStrategy::YieldThread
    }
}

/// How far the native sleep is trusted, and what to do while spinning.
#[derive(Debug, Clone, Copy, PartialEq, Eq, Hash, Structural)]
pub struct SpinSleeper {
    native_accuracy_ns: u32,
    spin_strategy: SpinStrategy,
}

/// A [`SpinSleeper`] as contracts see it.
pub struct SpinSleeperView {
    /// The part of every wait that is kept from the native sleep, in
    /// nanoseconds.
    pub native_accuracy_ns: nat,
    /// What to do between two looks at the clock.
    pub spin_strategy: SpinStrategy,
}

impl View for SpinSleeper {
    type V = SpinSleeperView;

    closed spec fn view(&self) -> SpinSleeperView {
        SpinSleeperView {
            native_accuracy_ns: self.native_accuracy_ns as nat,
            spin_strategy: self.spin_strategy,
        }
    }
}

/// Where a [`Sleep`] stands.
#[derive(Debug, Clone, Copy, PartialEq, Eq, Hash, Structural)]
pub enum SleepPhase {
    /// The native sleep has not been handed out yet.
    Native,
    /// The native sleep, if there was one, is behind; the clock decides.
    Spin,
    /// The wait is over.
    Done,
}

/// What a [`Sleep`] asks of its caller.
#[derive(Debug, Clone, Copy, PartialEq, Eq, Hash)]
pub enum SleepStep {
    /// Put the thread to sleep natively for this long, then step again.
    Native(Duration),
    /// Do what the strategy says once, then step again.
    Spin(SpinStrategy),
    /// Return: the wait is over.
    Done,
}

/// A [`SleepStep`] as contracts see it.
pub enum SleepStepView {
    /// A native sleep of this many nanoseconds.
    Native(nat),
    /// One spin of this kind.
    Spin(SpinStrategy),
    /// The wait is over.
    Done,
}

impl View for SleepStep {
    type V = SleepStepView;

    open spec fn view(&self) -> SleepStepView {
        match *self {
            SleepStep::Native(span) => SleepStepView::Native(span@),
            SleepStep::Spin(strategy) => SleepStepView::Spin(strategy),
            SleepStep::Done => SleepStepView::Done,
        }
    }
}

/// One wait in progress.
#[derive(Debug, Clone, Copy, PartialEq, Eq, Hash)]
pub struct Sleep {
    sleeper: SpinSleeper,
    start: Instant,
    duration: Duration,
    phase: SleepPhase,
}

/// A [`Sleep`] as contracts see it.
pub struct SleepView {
    /// The configuration the wait was begun with.
    pub sleeper: SpinSleeperView,
    /// The clock reading at which the wait began.
    pub start: nat,
    /// The length of the wait, in nanoseconds.
    pub duration: nat,
    /// Where the wait stands.
    pub phase: SleepPhase,
}

impl View for Sleep {
    type V = SleepView;

    closed spec fn view(&self) -> SleepView {
        SleepView {
            sleeper: self.sleeper@,
            start: self.start@,
            duration: self.duration@,
            phase: self.phase,
        }
    }
}

impl SpinSleeperView {
    /// The default sleeper.
    pub open spec fn default_view() -> SpinSleeperView {
        SpinSleeperView {
            native_accuracy_ns: DEFAULT_NATIVE_SLEEP_ACCURACY as nat,
            spin_strategy: SpinStrategy::YieldThread,
        }
    }

    /// The wait of `duration` nanoseconds that begins at the reading `now`.
    ///
    /// A native sleep is planned only where the wait is longer than the part
    /// kept from it.
    pub open spec fn begin(self, duration: nat, now: nat) -> SleepView {
        SleepView {
            sleeper: self,
            start: now,
            duration,
            phase: if duration > self.native_accuracy_ns {
                SleepPhase::Native
            } else {
                SleepPhase::Spin
            },
        }
    }
}

impl SleepView {
    /// The time since the wait began, at the reading `now`; nothing if the
    /// clock has stepped back behind the start.
    pub open spec fn elapsed(self, now: nat) -> nat {
        saturating_diff(now, self.start)
    }

    /// The length of the native sleep: the wait less the part kept from it.
    pub open spec fn native_part(self) -> nat {
        saturating_diff(self.duration, self.sleeper.native_accuracy_ns)
    }

    /// What the wait asks for at the reading `now`.
    pub open spec fn action(self, now: nat) -> SleepStepView {
        match self.phase {
            SleepPhase::Native => SleepStepView::Native(self.native_part()),
            SleepPhase::Spin => if self.elapsed(now) < self.duration {
                SleepStepView::Spin(self.sleeper.spin_strategy)
            } else {
                SleepStepView::Done
            },
            SleepPhase::Done => SleepStepView::Done,
        }
    }

    /// Where the wait stands after it was stepped at the reading `now`.
    pub open spec fn after(self, now: nat) -> SleepView {
        let phase = match self.action(now) {
            SleepStepView::Done => SleepPhase::Done,
            _ => SleepPhase::Spin,
        };
        SleepView { phase, ..self }
    }

    /// Where the wait stands after it was stepped once at each of `readings`,
    /// in order.
    pub open spec fn after_all(self, readings: Seq<nat>) -> SleepView
        decreases readings.len(),
    {
        if readings.len() == 0 {
            self
        } else {
            self.after_all(readings.drop_last()).after(readings.last())
        }
    }
}

/// A wait is declared over only at a reading that lies at least its length
/// after its start: the step that first answers `Done` was handed such a
/// reading.
pub proof fn lemma_done_means_elapsed(sleep: SleepView, now: nat)
    requires
        sleep.phase != SleepPhase::Done,
        sleep.action(now) == SleepStepView::Done,
    ensures
        sleep.elapsed(now) >= sleep.duration,
        sleep.duration > 0 ==> now >= sleep.start + sleep.duration,
{
}

/// Stepping a wait changes where it stands and nothing else.
pub proof fn lemma_steps_keep_the_plan(sleep: SleepView, readings: Seq<nat>)
    ensures
        sleep.after_all(readings).sleeper == sleep.sleeper,
        sleep.after_all(readings).start == sleep.start,
        sleep.after_all(readings).duration == sleep.duration,
    decreases readings.len(),
{
    if readings.len() > 0 {
        lemma_steps_keep_the_plan(sleep, readings.drop_last());
    }
}

/// A wait never ends early, whatever the sleeper, the length and the clock:
/// if a new wait is over after it was stepped through `readings`, then one of
/// those readings lies at least the length of the wait after its start.
pub proof fn lemma_never_wakes_early(
    sleeper: SpinSleeperView,
    duration: nat,
    start: nat,
    readings: Seq<nat>,
)
    ensures
        sleeper.begin(duration, start).after_all(readings).phase == SleepPhase::Done
            ==> exists|i: int|
            0 <= i < readings.len() && saturating_diff(#[trigger] readings[i], start) >= duration,
    decreases readings.len(),
{
    let sleep = sleeper.begin(duration, start);
    if readings.len() > 0 {
        let earlier = readings.drop_last();
        let before = sleep.after_all(earlier);
        lemma_never_wakes_early(sleeper, duration, start, earlier);
        lemma_steps_keep_the_plan(sleep, earlier);
        if before.phase == SleepPhase::Done {
            let i = choose|i: int|
                0 <= i < earlier.len() && saturating_diff(#[trigger] earlier[i], start)
                    >= duration;
            assert(readings[i] == earlier[i]);
        } else if before.after(readings.last()).phase == SleepPhase::Done {
            assert(saturating_diff(readings[readings.len() - 1], start) >= duration);
        }
    }
}

/// What a wait asks for is decided by the configuration, the length, the start
/// and the readings, and by nothing else: two sleepers configured alike, asked
/// for the same wait and stepped through the same readings, stand alike after
/// them and ask for the same at the next.
pub proof fn lemma_same_configuration_same_steps(
    first: SpinSleeperView,
    second: SpinSleeperView,
    duration: nat,
    start: nat,
    readings: Seq<nat>,
    now: nat,
)
    requires
        first.native_accuracy_ns == second.native_accuracy_ns,
        first.spin_strategy == second.spin_strategy,
    ensures
        first.begin(duration, start).after_all(readings) == second.begin(
            duration,
            start,
        ).after_all(readings),
        first.begin(duration, start).after_all(readings).action(now) == second.begin(
            duration,
            start,
        ).after_all(readings).action(now),
{
    assert(first == second);
}

/// The native sleep is asked for at most once, as the first step, and only of
/// a wait that is longer than the part kept from it; it then lasts exactly the
/// rest, which is more than nothing and less than the whole wait unless
/// nothing is kept.
pub proof fn lemma_native_sleep_once(sleeper: SpinSleeperView, duration: nat, start: nat, now: nat)
    ensures
        ({
            let sleep = sleeper.begin(duration, start);
            &&& duration > sleeper.native_accuracy_ns ==> sleep.action(now)
                == SleepStepView::Native((duration - sleeper.native_accuracy_ns) as nat)
            &&& duration <= sleeper.native_accuracy_ns ==> !(sleep.action(now) is Native)
            &&& forall|later: nat| !(#[trigger] sleep.after(now).action(later) is Native)
        }),
{
}

impl SpinSleeper {
    /// A sleeper that keeps `native_accuracy_ns` nanoseconds of every wait
    /// from the native sleep, and yields while it spins. The lower the number,
    /// the more the native sleep is trusted.
    pub fn new(native_accuracy_ns: u32) -> (r: SpinSleeper)
        ensures
            r@ == (SpinSleeperView {
                native_accuracy_ns: native_accuracy_ns as nat,
                spin_strategy: SpinStrategy::YieldThread,
            }),
    {
        SpinSleeper { native_accuracy_ns, spin_strategy: SpinStrategy::default() }
    }

    /// The configured native sleep accuracy, in nanoseconds.
    pub fn native_accuracy_ns(self) -> (r: u32)
        ensures
            r == self@.native_accuracy_ns,
    {
        self.native_accuracy_ns
    }

    /// The configured spin strategy.
    pub fn spin_strategy(self) -> (r: SpinStrategy)
        ensures
            r == self@.spin_strategy,
    {
        self.spin_strategy
    }

    /// The same sleeper with another spin strategy.
    pub fn with_spin_strategy(self, strategy: SpinStrategy) -> (r: SpinSleeper)
        ensures
            r@ == (SpinSleeperView { spin_strategy: strategy, ..self@ }),
    {
        SpinSleeper { native_accuracy_ns: self.native_accuracy_ns, spin_strategy: strategy }
    }

    /// Begins a wait of `duration` at the clock reading `now`.
    ///
    /// The caller then steps the wait with fresh readings until it is done.
    pub fn sleep(self, duration: Duration, now: Instant) -> (r: Sleep)
        ensures
            r@ == self@.begin(duration@, now@),
    {
        let accuracy = Duration::new(0, self.native_accuracy_ns);
        let phase = if duration.as_nanos() > accuracy.as_nanos() {
            SleepPhase::Native
        } else {
            SleepPhase::Spin
        };
        Sleep { sleeper: self, start: now, duration, phase }
    }

    /// Begins a wait of `nanoseconds` at the clock reading `now`.
    pub fn sleep_ns(self, nanoseconds: u64, now: Instant) -> (r: Sleep)
        ensures
            r@ == self@.begin(nanoseconds as nat, now@),
    {
        let subsec_ns: u32 = (nanoseconds % 1_000_000_000) as u32;
        let seconds: u64 = nanoseconds / 1_000_000_000;
        self.sleep(Duration::new(seconds, subsec_ns), now)
    }
}

impl Default for SpinSleeper {
    /// A sleeper for systems whose native sleep is accurate to about an eighth
    /// of a millisecond. Best effort: tune the accuracy where it matters.
    fn default() -> (r: Self)
        ensures
            r@ == SpinSleeperView::default_view(),
    {
        SpinSleeper::new(DEFAULT_NATIVE_SLEEP_ACCURACY)
    }
}

/// Begins a wait of `duration` at the clock reading `now`, with the default
/// sleeper.
pub fn sleep(duration: Duration, now: Instant) -> (r: Sleep)
    ensures
        r@ == SpinSleeperView::default_view().begin(duration@, now@),
{
    SpinSleeper::default().sleep(duration, now)
}

impl Sleep {
    /// The configuration the wait was begun with.
    pub fn sleeper(&self) -> (r: SpinSleeper)
        ensures
            r@ == self@.sleeper,
    {
        self.sleeper
    }

    /// The clock reading at which the wait began.
    pub fn start(&self) -> (r: Instant)
        ensures
            r@ == self@.start,
    {
        self.start
    }

    /// The length of the wait.
    pub fn duration(&self) -> (r: Duration)
        ensures
            r@ == self@.duration,
    {
        self.duration
    }

    /// Where the wait stands.
    pub fn phase(&self) -> (r: SleepPhase)
        ensures
            r == self@.phase,
    {
        self.phase
    }

    /// Says what to do next, given the clock reading `now`.
    ///
    /// The first step of a wait that is longer than the sleeper's accuracy
    /// asks for the native sleep, whatever the reading. Every other step
    /// compares the time since the start with the length of the wait: while it
    /// falls short the answer is one spin, and from the first reading at which
    /// it does not, the answer is `Done` for good.
    pub fn step(&mut self, now: Instant) -> (r: SleepStep)
        ensures
            r@ == old(self)@.action(now@),
            final(self)@ == old(self)@.after(now@),
    {
        match self.phase {
            SleepPhase::Native => {
                self.phase = SleepPhase::Spin;
                let accuracy = Duration::new(0, self.sleeper.native_accuracy_ns);
                SleepStep::Native(self.duration.saturating_sub(accuracy))
            },
            SleepPhase::Spin => {
                let elapsed = now.saturating_duration_since(self.start);
                if elapsed.as_nanos() < self.duration.as_nanos() {
                    SleepStep::Spin(self.sleeper.spin_strategy)
                } else {
                    self.phase = SleepPhase::Done;
                    SleepStep::Done
                }
            },
            SleepPhase::Done => SleepStep::Done,
        }
    }
}

} // verus!
