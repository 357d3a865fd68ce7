//! The redraw ticker of the bar, which slows down while nothing happens, and
//! the outcome of draining the event bus.

use vstd::prelude::*;
use std::time::Duration;

verus! {

/// `Clone` for `Duration`, a `Copy` type: the clone is the same duration.
pub assume_specification[ <Duration as Clone>::clone ](d: &Duration) -> (r: Duration)
    ensures
        r == *d,
;

/// The duration of `millis` milliseconds, as `Duration::from_millis` builds
/// it. `Duration` is opaque here, so its contents are not spelled out; the
/// name only records that the duration is determined by the count.
pub uninterp spec fn millis_duration(millis: u64) -> Duration;

/// `Duration::from_millis`: the result depends on the count alone (it is the
/// duration of that many milliseconds), and the call never panics.
pub assume_specification[ Duration::from_millis ](millis: u64) -> (d: Duration)
    ensures
        d == millis_duration(millis),
;

/// A ticker that runs at the fast interval while there is activity and
/// drops to the slow interval after `idle_threshold` idle ticks.
#[derive(Debug, Clone)]
pub struct MicroTicker {
    fast_interval: Duration,
    slow_interval: Duration,
    idle_threshold: u8,
    idle_ticks: u8,
    current_interval: Duration,
}

impl MicroTicker {
    /// The interval used while active.
    pub closed spec fn fast(&self) -> Duration {
        self.fast_interval
    }

    /// The interval used while idle.
    pub closed spec fn slow(&self) -> Duration {
        self.slow_interval
    }

    /// The number of idle ticks after which the ticker slows down.
    pub closed spec fn threshold(&self) -> u8 {
        self.idle_threshold
    }

    /// The idle ticks counted so far (never above the threshold).
    pub closed spec fn idle(&self) -> u8 {
        self.idle_ticks
    }

    /// The interval in use.
    pub closed spec fn current(&self) -> Duration {
        self.current_interval
    }

    /// A ticker at the fast interval with no idle tick counted.
    pub fn new(fast_interval: Duration, slow_interval: Duration, idle_threshold: u8) -> (t: Self)
        ensures
            t.fast() == fast_interval,
            t.slow() == slow_interval,
            t.threshold() == idle_threshold,
            t.idle() == 0,
            t.current() == fast_interval,
    {
        MicroTicker {
            fast_interval,
            slow_interval,
            idle_threshold,
            idle_ticks: 0,
            current_interval: fast_interval,
        }
    }

    /// The interval in use.
    pub fn interval(&self) -> (d: Duration)
        ensures
            d == self.current(),
    {
        self.current_interval
    }

    /// Activity happened: back to the fast interval, idle count reset.
    pub fn record_activity(&mut self)
        ensures
            activity_step(*old(self), *final(self)),
    {
        self.idle_ticks = 0;
        self.current_interval = self.fast_interval;
    }

    /// A tick passed without activity: the idle count grows up to the
    /// threshold, and once it reaches it the ticker uses the slow interval.
    pub fn record_idle(&mut self)
        ensures
            idle_step(*old(self), *final(self)),
    {
        if self.idle_ticks < self.idle_threshold {
            self.idle_ticks = self.idle_ticks + 1;
        }
        if self.idle_ticks >= self.idle_threshold {
            self.current_interval = self.slow_interval;
        }
    }
}

impl Default for MicroTicker {
    /// 16 ms while active, 33 ms once idle for 3 ticks.
    fn default() -> (t: Self)
        ensures
            t.fast() == millis_duration(16),
            t.slow() == millis_duration(33),
            t.threshold() == 3,
            t.idle() == 0,
            t.current() == t.fast(),
    {
        MicroTicker::new(Duration::from_millis(16), Duration::from_millis(33), 3)
    }
}

/// Whether `b` is the ticker `a` after one idle tick.
pub open spec fn idle_step(a: MicroTicker, b: MicroTicker) -> bool {
    &&& b.idle() == if a.idle() < a.threshold() {
        a.idle() + 1
    } else {
        a.idle() as int
    }
    &&& b.current() == if b.idle() >= a.threshold() {
        a.slow()
    } else {
        a.current()
    }
    &&& b.fast() == a.fast()
    &&& b.slow() == a.slow()
    &&& b.threshold() == a.threshold()
}

/// Whether `b` is the ticker `a` after activity: back to the fast interval
/// with no idle tick counted, settings unchanged.
pub open spec fn activity_step(a: MicroTicker, b: MicroTicker) -> bool {
    &&& b.idle() == 0
    &&& b.current() == a.fast()
    &&& b.fast() == a.fast()
    &&& b.slow() == a.slow()
    &&& b.threshold() == a.threshold()
}

/// The number of idle ticks after activity at which a ticker with idle
/// threshold `k` switches to the slow interval: `k`, but at least one.
pub open spec fn ticks_to_slow(k: u8) -> int {
    if k == 0 {
        1
    } else {
        k as int
    }
}

/// A run of idle ticks: each state is the previous one after one idle tick.
pub open spec fn idle_run(states: Seq<MicroTicker>) -> bool {
    forall|i: int| 0 <= i < states.len() - 1 ==> #[trigger] idle_step(states[i], states[i + 1])
}

/// Along a run of idle ticks, the idle count grows by one per tick up to
/// the threshold, and once it has reached it the slow interval is in use.
proof fn lemma_idle_run_prefix(states: Seq<MicroTicker>, n: int)
    requires
        0 <= n < states.len(),
        idle_run(states),
        states[0].idle() <= states[0].threshold(),
    ensures
        states[n].threshold() == states[0].threshold(),
        states[n].slow() == states[0].slow(),
        states[n].idle() <= states[0].threshold(),
        states[n].idle() >= if states[0].idle() + n < states[0].threshold() {
            states[0].idle() + n
        } else {
            states[0].threshold() as int
        },
        n > 0 && states[n].idle() >= states[0].threshold() ==> states[n].current()
            == states[0].slow(),
    decreases n,
{
    if n > 0 {
        lemma_idle_run_prefix(states, n - 1);
        let m = n - 1;
        assert(idle_step(states[m], states[m + 1]));
        assert(m + 1 == n);
    }
}

/// After at least `threshold` idle ticks in a row, from a ticker whose idle
/// count is within its threshold, the ticker runs at the slow interval.
pub proof fn lemma_idle_run_slows_down(states: Seq<MicroTicker>)
    requires
        states.len() >= 2,
        idle_run(states),
        states[0].idle() <= states[0].threshold(),
        states.len() - 1 >= states[0].threshold(),
    ensures
        states.last().current() == states[0].slow(),
{
    lemma_idle_run_prefix(states, states.len() - 1);
}

/// The state `n` idle ticks after activity: the idle count is `n` capped at
/// the threshold, and the interval is fast until the count reaches it.
proof fn lemma_after_activity_prefix(before: MicroTicker, states: Seq<MicroTicker>, n: int)
    requires
        0 <= n < states.len(),
        activity_step(before, states[0]),
        idle_run(states),
    ensures
        states[n].idle() == if n < before.threshold() {
            n
        } else {
            before.threshold() as int
        },
        states[n].current() == if n >= ticks_to_slow(before.threshold()) {
            before.slow()
        } else {
            before.fast()
        },
        states[n].fast() == before.fast(),
        states[n].slow() == before.slow(),
        states[n].threshold() == before.threshold(),
    decreases n,
{
    if n > 0 {
        lemma_after_activity_prefix(before, states, n - 1);
        let m = n - 1;
        assert(idle_step(states[m], states[m + 1]));
        assert(m + 1 == n);
    }
}

/// Activity puts the ticker back on the fast interval; from there, a run of
/// idle ticks keeps it fast for fewer than `ticks_to_slow(threshold)` ticks
/// and slow from that tick on, with the idle count capped at the threshold.
pub proof fn lemma_activity_then_idle_run(before: MicroTicker, states: Seq<MicroTicker>)
    requires
        states.len() >= 1,
        activity_step(before, states[0]),
        idle_run(states),
    ensures
        states[0].current() == before.fast(),
        forall|n: int|
            0 <= n < states.len() ==> (#[trigger] states[n]).current() == if n >= ticks_to_slow(
                before.threshold(),
            ) {
                before.slow()
            } else {
                before.fast()
            },
        forall|n: int|
            0 <= n < states.len() ==> (#[trigger] states[n]).idle() == if n < before.threshold() {
                n
            } else {
                before.threshold() as int
            },
{
    assert forall|n: int| 0 <= n < states.len() implies {
        &&& (#[trigger] states[n]).current() == if n >= ticks_to_slow(before.threshold()) {
            before.slow()
        } else {
            before.fast()
        }
        &&& states[n].idle() == if n < before.threshold() {
            n
        } else {
            before.threshold() as int
        }
    } by {
        lemma_after_activity_prefix(before, states, n);
    }
}

/// The events read from the bus in one drain, and whether reading failed.
#[derive(Debug, Clone)]
pub struct BusFlushOutcome<E> {
    events: Vec<E>,
    had_error: bool,
}

impl<E> BusFlushOutcome<E> {
    /// The events read.
    pub closed spec fn drained(&self) -> Seq<E> {
        self.events@
    }

    /// Whether reading failed.
    pub closed spec fn failed(&self) -> bool {
        self.had_error
    }

    /// No event and no error.
    pub fn empty() -> (o: Self)
        ensures
            o.drained().len() == 0,
            !o.failed(),
    {
        BusFlushOutcome { events: Vec::new(), had_error: false }
    }

    /// The given events, and whether reading failed.
    pub fn with_events(events: Vec<E>, had_error: bool) -> (o: Self)
        ensures
            o.drained() == events@,
            o.failed() == had_error,
    {
        BusFlushOutcome { events, had_error }
    }

    /// Whether reading failed.
    pub fn had_error(&self) -> (b: bool)
        ensures
            b == self.failed(),
    {
        self.had_error
    }

    /// Whether no event was read.
    pub fn is_empty(&self) -> (b: bool)
        ensures
            b == (self.drained().len() == 0),
    {
        self.events.len() == 0
    }

    /// The events read.
    pub fn into_events(self) -> (v: Vec<E>)
        ensures
            v@ == self.drained(),
    {
        self.events
    }
}

impl MicroTicker {
    /// Adjusts the cadence after draining the event bus: a failed drain or
    /// drained events count as activity, an empty successful drain as an
    /// idle tick.
    pub fn record_flush<E>(&mut self, outcome: &BusFlushOutcome<E>)
        ensures
            (outcome.failed() || outcome.drained().len() > 0) ==> activity_step(
                *old(self),
                *final(self),
            ),
            !(outcome.failed() || outcome.drained().len() > 0) ==> idle_step(
                *old(self),
                *final(self),
            ),
    {
        if outcome.had_error() {
            self.record_activity();
        }
        if outcome.is_empty() {
            if !outcome.had_error() {
                self.record_idle();
            }
        } else if !outcome.had_error() {
            self.record_activity();
        }
    }
}

} // verus!
