//! Periodic ticks and what happens to the ones that are missed.
use spin_sleep::{
    interval, interval_at, Duration, Instant, Interval, IntervalError, MissedTickBehavior,
    SleepStep, SpinSleeper, SpinStrategy,
};

const MS: u128 = 1_000_000;

fn at_ms(millis: u128) -> Instant {
    Instant::from_nanos(millis * MS)
}

fn every_50_ms(behavior: MissedTickBehavior) -> Interval {
    interval_at(at_ms(0), Duration::from_millis(50)).unwrap().with_missed_tick_behavior(behavior)
}

/// The length of the wait that the tick asks for, in milliseconds; none where
/// the tick was missed.
fn tick_ms(interval: &mut Interval, now: Instant) -> (Instant, Option<u128>) {
    let tick = interval.tick(now);
    if let Some(sleep) = tick.sleep {
        assert_eq!(sleep.start(), now);
        assert_eq!(sleep.sleeper(), interval.spin_sleeper());
    }
    (tick.scheduled, tick.sleep.map(|sleep| sleep.duration().as_nanos() / MS))
}

#[test]
#[should_panic]
fn at_zero_period() {
    interval_at(Instant::from_nanos(0), Duration::zero()).unwrap();
}

#[test]
#[should_panic]
fn zero_period() {
    interval(Duration::zero(), Instant::from_nanos(0)).unwrap();
}

#[test]
fn zero_period_is_rejected_with_an_error() {
    assert_eq!(
        interval_at(at_ms(3), Duration::zero()).err(),
        Some(IntervalError::ZeroPeriod)
    );
    assert_eq!(interval(Duration::zero(), at_ms(3)).err(), Some(IntervalError::ZeroPeriod));
    assert_eq!(
        interval_at(at_ms(3), Duration::new(0, 0)).err(),
        Some(IntervalError::ZeroPeriod)
    );
    assert!(interval_at(at_ms(3), Duration::from_nanos(1)).is_ok());
}

#[test]
fn new_interval_has_the_defaults() {
    let i = interval(Duration::from_millis(20), at_ms(7)).unwrap();
    assert_eq!(i.missed_tick_behavior(), MissedTickBehavior::Skip);
    assert_eq!(MissedTickBehavior::default(), MissedTickBehavior::Skip);
    assert_eq!(i.period(), Duration::from_millis(20));
    assert_eq!(i.spin_sleeper(), SpinSleeper::default());
}

#[test]
fn setters_and_builders() {
    let custom_sleeper = SpinSleeper::new(123456);

    let mut i = interval(Duration::from_millis(20), at_ms(0)).unwrap();
    i.set_missed_tick_behavior(MissedTickBehavior::Burst);
    assert_eq!(i.missed_tick_behavior(), MissedTickBehavior::Burst);
    i.set_spin_sleeper(custom_sleeper);
    assert_eq!(i.spin_sleeper(), custom_sleeper);
    assert_eq!(i.period(), Duration::from_millis(20));

    let i = interval(Duration::from_millis(20), at_ms(0))
        .unwrap()
        .with_missed_tick_behavior(MissedTickBehavior::Delay)
        .with_spin_sleeper(custom_sleeper);
    assert_eq!(i.missed_tick_behavior(), MissedTickBehavior::Delay);
    assert_eq!(i.spin_sleeper(), custom_sleeper);
    assert_eq!(i.period(), Duration::from_millis(20));
}

#[test]
fn first_tick_comes_at_once() {
    let mut i = interval(Duration::from_millis(20), at_ms(5)).unwrap();
    let tick = i.tick(at_ms(5));
    assert_eq!(tick.scheduled, at_ms(5));
    let mut sleep = tick.sleep.unwrap();
    assert_eq!(sleep.duration(), Duration::zero());
    assert_eq!(sleep.step(at_ms(5)), SleepStep::Done);
    // the second is due one period later
    assert_eq!(tick_ms(&mut i, at_ms(5)), (at_ms(25), Some(20)));
}

#[test]
fn on_time_ticks_are_one_period_apart() {
    let mut i = every_50_ms(MissedTickBehavior::Skip);
    assert_eq!(tick_ms(&mut i, at_ms(0)), (at_ms(0), Some(0)));
    assert_eq!(tick_ms(&mut i, at_ms(10)), (at_ms(50), Some(40)));
    assert_eq!(tick_ms(&mut i, at_ms(99)), (at_ms(100), Some(1)));
    assert_eq!(tick_ms(&mut i, at_ms(150)), (at_ms(150), Some(0)));
    assert_eq!(tick_ms(&mut i, at_ms(150)), (at_ms(200), Some(50)));
}

#[test]
fn tick_waits_with_the_configured_sleeper() {
    let sleeper = SpinSleeper::new(1_000_000).with_spin_strategy(SpinStrategy::SpinLoopHint);
    let mut i = every_50_ms(MissedTickBehavior::Skip).with_spin_sleeper(sleeper);
    i.tick(at_ms(0));
    let mut sleep = i.tick(at_ms(10)).sleep.unwrap();
    assert_eq!(sleep.sleeper(), sleeper);
    assert_eq!(sleep.step(at_ms(10)), SleepStep::Native(Duration::from_millis(39)));
    assert_eq!(sleep.step(at_ms(49)), SleepStep::Spin(SpinStrategy::SpinLoopHint));
    assert_eq!(sleep.step(at_ms(50)), SleepStep::Done);
}

#[test]
fn skip_snaps_to_the_next_multiple() {
    let mut i = every_50_ms(MissedTickBehavior::Skip);
    assert_eq!(tick_ms(&mut i, at_ms(0)), (at_ms(0), Some(0)));
    // 75 ms of work: the tick at 50 was missed by 25
    assert_eq!(tick_ms(&mut i, at_ms(75)), (at_ms(50), None));
    // the next is due at 100, the closest multiple after the miss was seen
    assert_eq!(tick_ms(&mut i, at_ms(75)), (at_ms(100), Some(25)));
    assert_eq!(tick_ms(&mut i, at_ms(100)), (at_ms(150), Some(50)));
}

#[test]
fn skip_drops_whole_periods() {
    // late by 3 periods and 20 ms
    let mut i = every_50_ms(MissedTickBehavior::Skip);
    assert_eq!(tick_ms(&mut i, at_ms(170)), (at_ms(0), None));
    assert_eq!(tick_ms(&mut i, at_ms(170)), (at_ms(200), Some(30)));

    // late by exactly 2 periods: one more whole period to go
    let mut i = every_50_ms(MissedTickBehavior::Skip);
    assert_eq!(tick_ms(&mut i, at_ms(100)), (at_ms(0), None));
    assert_eq!(tick_ms(&mut i, at_ms(100)), (at_ms(150), Some(50)));

    // late by a single nanosecond
    let mut i = every_50_ms(MissedTickBehavior::Skip);
    assert_eq!(i.tick(Instant::from_nanos(1)).sleep, None);
    let tick = i.tick(Instant::from_nanos(1));
    assert_eq!(tick.scheduled, at_ms(50));
    assert_eq!(tick.sleep.unwrap().duration(), Duration::from_nanos(49_999_999));
}

#[test]
fn burst_fires_until_caught_up() {
    let mut i = every_50_ms(MissedTickBehavior::Burst);
    // first tick comes at once
    assert_eq!(tick_ms(&mut i, at_ms(0)), (at_ms(0), Some(0)));
    // 200 ms of work: the ticks at 50, 100 and 150 were missed
    assert_eq!(tick_ms(&mut i, at_ms(200)), (at_ms(50), None));
    assert_eq!(tick_ms(&mut i, at_ms(200)), (at_ms(100), None));
    assert_eq!(tick_ms(&mut i, at_ms(200)), (at_ms(150), None));
    // the tick at 200 is due right now
    assert_eq!(tick_ms(&mut i, at_ms(200)), (at_ms(200), Some(0)));
    // caught up: the next one waits a whole period
    assert_eq!(tick_ms(&mut i, at_ms(200)), (at_ms(250), Some(50)));
}

#[test]
fn burst_behind_by_n_periods_needs_n_more_ticks() {
    // behind by 3 periods and a bit: the tick that sees it and 3 more come at
    // once, the one after them waits
    let mut i = every_50_ms(MissedTickBehavior::Burst);
    let now = at_ms(160);
    let mut at_once = 0;
    let waited = loop {
        match tick_ms(&mut i, now) {
            (scheduled, None) => {
                assert_eq!(scheduled, at_ms(50 * at_once));
                at_once += 1;
            }
            (scheduled, Some(wait)) => break (scheduled, wait),
        }
    };
    assert_eq!(at_once, 1 + 3);
    assert_eq!(waited, (at_ms(200), 40));
}

#[test]
fn delay_starts_over_from_the_miss() {
    let mut i = every_50_ms(MissedTickBehavior::Delay);
    assert_eq!(tick_ms(&mut i, at_ms(0)), (at_ms(0), Some(0)));
    assert_eq!(tick_ms(&mut i, at_ms(75)), (at_ms(50), None));
    // one period after the miss was seen, not after the missed tick
    assert_eq!(tick_ms(&mut i, at_ms(75)), (at_ms(125), Some(50)));
    assert_eq!(tick_ms(&mut i, at_ms(130)), (at_ms(175), Some(45)));
}

#[test]
fn missed_tick_names_the_schedule_not_the_clock() {
    for behavior in
        [MissedTickBehavior::Burst, MissedTickBehavior::Delay, MissedTickBehavior::Skip]
    {
        let mut i = every_50_ms(behavior);
        let tick = i.tick(at_ms(1234));
        assert_eq!(tick.scheduled, at_ms(0));
        assert_eq!(tick.sleep, None);
    }
}

#[test]
fn next_tick_formulas() {
    let missed = Instant::from_nanos(1_000);
    let now = Instant::from_nanos(1_275);
    let period = Duration::from_nanos(100);
    assert_eq!(
        MissedTickBehavior::Burst.next_tick(missed, now, period),
        Instant::from_nanos(1_100)
    );
    assert_eq!(
        MissedTickBehavior::Delay.next_tick(missed, now, period),
        Instant::from_nanos(1_375)
    );
    assert_eq!(
        MissedTickBehavior::Skip.next_tick(missed, now, period),
        Instant::from_nanos(1_300)
    );
    // a reading that is not late counts as no lateness
    assert_eq!(
        MissedTickBehavior::Skip.next_tick(missed, Instant::from_nanos(900), period),
        Instant::from_nanos(1_000)
    );
}

#[test]
fn next_tick_stops_at_the_end_of_the_clock() {
    let end = Instant::from_nanos(u128::MAX);
    let near = Instant::from_nanos(u128::MAX - 10);
    let period = Duration::from_nanos(100);
    for behavior in
        [MissedTickBehavior::Burst, MissedTickBehavior::Delay, MissedTickBehavior::Skip]
    {
        assert_eq!(behavior.next_tick(near, end, period), end);
    }
    // astronomically late, with a period beyond 584 years: no failure
    let period = Duration::from_nanos_u128(u64::MAX as u128 * 4);
    let now = Instant::from_nanos(u64::MAX as u128 * 10 + 5);
    assert_eq!(
        MissedTickBehavior::Skip.next_tick(Instant::from_nanos(0), now, period),
        Instant::from_nanos(u64::MAX as u128 * 12)
    );

    let mut i = interval_at(near, Duration::from_nanos(100)).unwrap();
    assert_eq!(i.tick(near).scheduled, near);
    assert_eq!(i.tick(near).scheduled, end);
}

#[test]
fn reset_is_one_period_from_now() {
    let mut i = every_50_ms(MissedTickBehavior::Burst);
    i.tick(at_ms(0));
    i.reset(at_ms(1_017));
    assert_eq!(tick_ms(&mut i, at_ms(1_017)), (at_ms(1_067), Some(50)));
    assert_eq!(i.missed_tick_behavior(), MissedTickBehavior::Burst);
    assert_eq!(i.period(), Duration::from_millis(50));

    // also backwards, when the schedule was ahead
    i.reset(at_ms(3));
    assert_eq!(tick_ms(&mut i, at_ms(3)), (at_ms(53), Some(50)));

    i.reset(Instant::from_nanos(u128::MAX - 1));
    assert_eq!(i.tick(at_ms(0)).scheduled, Instant::from_nanos(u128::MAX));
}

#[test]
fn first_tick_in_the_past_is_a_miss() {
    let mut i = interval_at(at_ms(100), Duration::from_millis(50)).unwrap();
    assert_eq!(tick_ms(&mut i, at_ms(130)), (at_ms(100), None));
    assert_eq!(tick_ms(&mut i, at_ms(130)), (at_ms(150), Some(20)));
}

#[test]
fn first_tick_in_the_future_waits() {
    let mut i = interval_at(at_ms(100), Duration::from_millis(50)).unwrap();
    assert_eq!(tick_ms(&mut i, at_ms(30)), (at_ms(100), Some(70)));
}
