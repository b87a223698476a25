//! The cyclic actuation clock.

use vstd::prelude::*;

verus! {

/// Length of one actuation cycle, in clock units.
pub const PERIOD: i32 = 200;

/// The phase that the instant `t` falls on: the one value in `[0, PERIOD)`
/// that differs from `t` by a whole number of periods.
pub open spec fn phase_of(t: int) -> int {
    t % (PERIOD as int)
}

/// Folds an instant back into one period.
pub fn wrap_phase(t: i64) -> (phase: i32)
    ensures
        phase == phase_of(t as int),
        0 <= phase < PERIOD,
{
    let period: i64 = PERIOD as i64;
    let r: i64 = t % period;
    if r < 0 {
        (r + period) as i32
    } else {
        r as i32
    }
}

/// The phase counter that drives link actuation.
pub struct Clock {
    cycle_time: i32,
    paused: bool,
}

impl Clock {
    /// The counter stays inside one period.
    pub closed spec fn wf(&self) -> bool {
        0 <= self.cycle_time < PERIOD
    }

    /// The phase that the clock shows.
    pub closed spec fn time(&self) -> int {
        self.cycle_time as int
    }

    /// Whether the clock is held still.
    pub closed spec fn is_paused(&self) -> bool {
        self.paused
    }

    /// A well-formed clock shows a phase inside the period.
    pub proof fn lemma_time_in_period(&self)
        requires
            self.wf(),
        ensures
            0 <= self.time() < PERIOD,
    {
    }

    /// A running clock at phase zero.
    pub fn new() -> (clock: Clock)
        ensures
            clock.wf(),
            clock.time() == 0,
            !clock.is_paused(),
    {
        Clock { cycle_time: 0, paused: false }
    }

    /// The phase that the clock shows.
    pub fn cycle_time(&self) -> (t: i32)
        ensures
            t == self.time(),
    {
        self.cycle_time
    }

    /// Whether the clock is held still.
    pub fn paused(&self) -> (p: bool)
        ensures
            p == self.is_paused(),
    {
        self.paused
    }

    /// Holds the clock still or lets it run; the phase stays.
    pub fn set_paused(&mut self, paused: bool)
        ensures
            final(self).time() == old(self).time(),
            final(self).is_paused() == paused,
            old(self).wf() ==> final(self).wf(),
    {
        self.paused = paused;
    }

    /// Moves the counter by `clock_speed`, of either sign, and wraps it into
    /// the period. A paused clock keeps its phase.
    pub fn advance(&mut self, clock_speed: i32)
        requires
            old(self).wf(),
        ensures
            final(self).wf(),
            0 <= final(self).time() < PERIOD,
            final(self).is_paused() == old(self).is_paused(),
            final(self).time() == if old(self).is_paused() {
                old(self).time()
            } else {
                phase_of(old(self).time() + clock_speed)
            },
    {
        if !self.paused {
            self.cycle_time = wrap_phase(self.cycle_time as i64 + clock_speed as i64);
        }
    }
}

/// Two steps in a row land where one step of their sum lands, whatever the
/// signs of the steps and however often the counter wraps in between.
pub proof fn lemma_steps_add_up(t: int, first: int, second: int)
    ensures
        phase_of(phase_of(t + first) + second) == phase_of(t + first + second),
{
}

/// From inside the period, a step no longer than the period is wrapped by
/// adding or taking away the period once at most.
pub proof fn lemma_one_wrap_suffices(t: int, step: int)
    requires
        0 <= t < PERIOD,
        -PERIOD <= step <= PERIOD,
    ensures
        0 <= phase_of(t + step) < PERIOD,
        phase_of(t + step) == t + step || phase_of(t + step) == t + step - PERIOD || phase_of(
            t + step,
        ) == t + step + PERIOD,
{
}

} // verus!
