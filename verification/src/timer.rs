//! A free-running tick counter and countdowns that are polled against it.
//!
//! The counter is 64 bits wide and wraps. A countdown stores the counter value at which it
//! ends and compares by the distance from that value to the counter, taken modulo the
//! counter's range, so that a deadline beyond the wrap is handled like any other.

use vstd::prelude::*;

use crate::clocks::Clocks;
use crate::peripherals::TimerBlock;

verus! {

use vstd::arithmetic::div_mod::lemma_fundamental_div_mod_converse_mod;

/// Half the range of the counter. A deadline counts as reached while the counter is fewer
/// than this many ticks past it.
pub const HALF_RANGE: u64 = 0x8000_0000_0000_0000;

/// The longest duration, in microseconds.
pub const MAX_MICROS: u64 = 4_294_967_295_000;

/// The number of values that the counter takes before it wraps.
pub open spec fn counter_range() -> int {
    0x1_0000_0000_0000_0000
}

/// The counter value that stands for tick number `ticks`.
pub open spec fn wrapped(ticks: int) -> u64 {
    (ticks % counter_range()) as u64
}

/// Whether a counter that reads `now` has reached `deadline`: the counter is at the deadline
/// or fewer than half its range past it.
pub open spec fn reached(deadline: u64, now: u64) -> bool {
    (now - deadline) % counter_range() < HALF_RANGE
}

/// What polling reports when the counter reads `now`: `Elapsed` if the countdown has been
/// started and its deadline is reached, `NotYet` otherwise.
pub open spec fn polled(deadline: Option<u64>, now: u64) -> Wait {
    match deadline {
        Some(deadline) if reached(deadline, now) => Wait::Elapsed,
        _ => Wait::NotYet,
    }
}

/// The whole ticks that pass at `tick_hz` in `micros` microseconds.
pub open spec fn ticks_in(micros: nat, tick_hz: u32) -> nat {
    micros * tick_hz as nat / 1_000_000
}

/// A span of time, kept in microseconds.
#[derive(Clone, Copy, Debug)]
pub struct Duration {
    micros: u64,
}

impl View for Duration {
    type V = nat;

    closed spec fn view(&self) -> nat {
        self.micros as nat
    }
}

impl Duration {
    #[verifier::type_invariant]
    spec fn well_formed(self) -> bool {
        self.micros <= MAX_MICROS
    }

    pub fn from_micros(micros: u32) -> (duration: Duration)
        ensures
            duration@ == micros,
    {
        Duration { micros: micros as u64 }
    }

    pub fn from_millis(millis: u32) -> (duration: Duration)
        ensures
            duration@ == millis * 1000,
    {
        Duration { micros: millis as u64 * 1000 }
    }

    /// The length in microseconds.
    pub fn as_micros(&self) -> (micros: u64)
        ensures
            micros == self@,
            micros <= MAX_MICROS,
    {
        proof {
            use_type_invariant(self);
        }
        self.micros
    }
}

/// The outcome of polling a countdown.
#[derive(Clone, Copy, Debug, PartialEq, Eq, Structural)]
pub enum Wait {
    Elapsed,
    NotYet,
}

/// What a timer is, as contracts see it.
pub struct TimerView {
    pub tick_hz: u32,
    pub counter: u64,
}

/// The free-running counter.
pub struct Timer {
    tick_hz: u32,
    counter: u64,
}

impl View for Timer {
    type V = TimerView;

    closed spec fn view(&self) -> TimerView {
        TimerView { tick_hz: self.tick_hz, counter: self.counter }
    }
}

impl Timer {
    #[verifier::type_invariant]
    spec fn well_formed(self) -> bool {
        1_000_000 <= self.tick_hz < 2_000_000
    }

    /// Takes over the timer block. The counter runs at the tick rate of `clocks` and starts
    /// at zero.
    pub fn new(block: TimerBlock, clocks: &Clocks) -> (timer: Timer)
        ensures
            timer@ == (TimerView { tick_hz: clocks@.tick_hz, counter: 0 }),
    {
        Timer { tick_hz: clocks.tick_hz(), counter: 0 }
    }

    /// The tick rate in Hz.
    pub fn tick_hz(&self) -> (hz: u32)
        ensures
            hz == self@.tick_hz,
            1_000_000 <= hz < 2_000_000,
    {
        proof {
            use_type_invariant(self);
        }
        self.tick_hz
    }

    /// The current counter value.
    pub fn get_counter(&self) -> (now: u64)
        ensures
            now == self@.counter,
    {
        self.counter
    }

    /// Sets the counter to a value read from the hardware.
    pub fn load(&mut self, counter: u64)
        ensures
            final(self)@ == (TimerView { counter, ..old(self)@ }),
    {
        proof {
            use_type_invariant(&*self);
        }
        self.counter = counter;
    }

    /// Lets `ticks` ticks pass; the counter wraps at the end of its range.
    pub fn tick(&mut self, ticks: u64)
        ensures
            final(self)@ == (TimerView {
                counter: wrapped(old(self)@.counter + ticks),
                ..old(self)@
            }),
    {
        proof {
            use_type_invariant(&*self);
        }
        self.counter = self.counter.wrapping_add(ticks);
    }

    /// A countdown that has not been started.
    pub fn count_down(&self) -> (count_down: CountDown)
        ensures
            count_down@ is None,
    {
        CountDown { deadline: None }
    }
}

/// A countdown. Its view is the counter value at which it ends, if it has been started.
pub struct CountDown {
    deadline: Option<u64>,
}

impl View for CountDown {
    type V = Option<u64>;

    closed spec fn view(&self) -> Option<u64> {
        self.deadline
    }
}

impl CountDown {
    /// Starts the countdown, again if it was started before: it ends when the whole ticks
    /// of `duration` have passed from the counter's current value.
    pub fn start(&mut self, timer: &Timer, duration: Duration)
        ensures
            final(self)@ == Some(
                wrapped(timer@.counter + ticks_in(duration@, timer@.tick_hz)),
            ),
            ticks_in(duration@, timer@.tick_hz) < HALF_RANGE,
    {
        let hz = timer.tick_hz();
        let micros = duration.as_micros();
        assert(micros * hz <= 4_294_967_295_000 * 2_000_000) by (nonlinear_arith)
            requires
                micros <= 4_294_967_295_000,
                hz < 2_000_000,
        ;
        let ticks = micros * (hz as u64) / 1_000_000;
        self.deadline = Some(timer.get_counter().wrapping_add(ticks));
    }

    /// Whether the countdown has ended: `Elapsed` once the counter has reached the deadline,
    /// `NotYet` before that and as long as the countdown has not been started. Polling
    /// changes nothing.
    pub fn wait(&self, timer: &Timer) -> (wait: Wait)
        ensures
            wait == polled(self@, timer@.counter),
    {
        match self.deadline {
            Some(deadline) => {
                if timer.get_counter().wrapping_sub(deadline) < HALF_RANGE {
                    Wait::Elapsed
                } else {
                    Wait::NotYet
                }
            },
            None => Wait::NotYet,
        }
    }
}

/// A countdown of `ticks` ticks that was started when the counter read `started_at` is not
/// reported as elapsed while fewer than `ticks` ticks have passed, and is reported as elapsed
/// from then on for half the counter's range, wherever in its range the counter started and
/// whether or not it wrapped on the way.
pub proof fn lemma_elapses_after_duration(started_at: u64, ticks: u64, passed: nat)
    requires
        ticks < HALF_RANGE,
    ensures
        passed < ticks ==> !reached(wrapped(started_at + ticks), wrapped(started_at + passed)),
        ticks <= passed < ticks + HALF_RANGE ==> reached(
            wrapped(started_at + ticks),
            wrapped(started_at + passed),
        ),
{
    let range = counter_range();
    let deadline = wrapped(started_at + ticks);
    let now = wrapped(started_at + passed);
    let turns_deadline = (started_at + ticks) / range;
    let turns_now = (started_at + passed) / range;
    assert(deadline == started_at + ticks - range * turns_deadline);
    assert(now == started_at + passed - range * turns_now);
    let turns = turns_now - turns_deadline;
    assert(now - deadline == passed - ticks - range * turns);
    if passed < ticks {
        lemma_fundamental_div_mod_converse_mod(
            now - deadline,
            range,
            -turns - 1,
            passed - ticks + range,
        );
    } else if passed < ticks + HALF_RANGE {
        lemma_fundamental_div_mod_converse_mod(now - deadline, range, -turns, passed - ticks);
    }
}

/// The ticks of a duration are at most one tick short of the duration, and every duration
/// is shorter than half the counter's range.
pub proof fn lemma_ticks_of_duration(micros: nat, tick_hz: u32)
    requires
        micros <= MAX_MICROS,
        tick_hz < 2_000_000,
    ensures
        ticks_in(micros, tick_hz) * 1_000_000 <= micros * tick_hz,
        micros * tick_hz < (ticks_in(micros, tick_hz) + 1) * 1_000_000,
        ticks_in(micros, tick_hz) < HALF_RANGE,
{
    let product = micros * tick_hz as nat;
    assert(product <= 4_294_967_295_000 * 2_000_000) by (nonlinear_arith)
        requires
            product == micros * tick_hz as nat,
            micros <= 4_294_967_295_000,
            tick_hz < 2_000_000,
    ;
    assert(product / 1_000_000 * 1_000_000 <= product < (product / 1_000_000 + 1) * 1_000_000);
}

} // verus!
