//! The triangular actuation pulse of a link, as far as whole clock units
//! decide it: which window covers the current phase, and how far the phase
//! lies from the centre that the window is measured from.

use vstd::prelude::*;
use crate::clock::{phase_of, PERIOD};

verus! {

/// The window that lies where the timing says: `timing - span <= t < timing + span`.
pub open spec fn in_direct_window(t: int, timing: int, span: int) -> bool {
    timing - span <= t < timing + span
}

/// The part of a window that runs past the end of the period and comes back
/// in at its start.
pub open spec fn in_high_wrap(t: int, timing: int, span: int) -> bool {
    timing + span > PERIOD && t < timing + span - PERIOD
}

/// The part of a window that starts before phase zero and comes back in at
/// the end of the period.
pub open spec fn in_low_wrap(t: int, timing: int, span: int) -> bool {
    timing - span < 0 && t > timing - span + PERIOD
}

/// The centre from which the pulse is measured at phase `t`. The three
/// windows are tested one after the other and the last that covers `t` wins.
pub open spec fn pulse_center(t: int, timing: int, span: int) -> Option<int> {
    if in_low_wrap(t, timing, span) {
        Some(timing + PERIOD)
    } else if in_high_wrap(t, timing, span) {
        Some(timing - PERIOD)
    } else if in_direct_window(t, timing, span) {
        Some(timing)
    } else {
        None
    }
}

/// Distance in clock units between `t` and the centre of the window that
/// covers it; `None` where no window does and the link is at rest.
pub open spec fn pulse_distance(t: int, timing: int, span: int) -> Option<int> {
    match pulse_center(t, timing, span) {
        Some(c) => Some(if c >= t { c - t } else { t - c }),
        None => None,
    }
}

/// Height of the pulse in units of `1 / span` of its peak: `span` at the
/// centre, falling by one for each clock unit away from it.
pub open spec fn pulse_level(t: int, timing: int, span: int) -> int {
    match pulse_distance(t, timing, span) {
        Some(d) => span - d,
        None => 0,
    }
}

/// Distance between two instants on the circle of phases.
pub open spec fn cyclic_distance(a: int, b: int) -> int {
    let ahead = phase_of(a - b);
    let behind = phase_of(b - a);
    if ahead <= behind { ahead } else { behind }
}

/// Evaluates the pulse windows of a link at phase `cycle_time`. The result is
/// the distance from the effective centre, from which the caller scales the
/// push as `strength * (1 - distance / span)`.
pub fn pulse_at(cycle_time: i32, push_timing: i32, push_span: i32) -> (distance: Option<u64>)
    ensures
        match distance {
            Some(d) => pulse_distance(cycle_time as int, push_timing as int, push_span as int)
                == Some(d as int),
            None => pulse_distance(cycle_time as int, push_timing as int, push_span as int)
                is None,
        },
{
    let t: i64 = cycle_time as i64;
    let timing: i64 = push_timing as i64;
    let span: i64 = push_span as i64;
    let period: i64 = PERIOD as i64;
    let mut center: Option<i64> = None;
    if t >= timing - span && t < timing + span {
        center = Some(timing);
    }
    if timing + span > period && t < timing + span - period {
        center = Some(timing - period);
    }
    if timing - span < 0 && t > timing - span + period {
        center = Some(timing + period);
    }
    match center {
        Some(c) => Some(if c >= t { (c - t) as u64 } else { (t - c) as u64 }),
        None => None,
    }
}

/// For a timing inside the period and a half-width of no more than half the
/// period and one unit, the pulse depends on the phase only through its
/// distance from the timing around the circle: it is `span` less that
/// distance wherever this is positive, and zero elsewhere. A window that
/// straddles the end of the period therefore has the same shape as one in
/// the middle of it, and the link pushes all the way across the seam. Wider
/// windows overlap themselves, and the window that is tested last cuts into
/// the others.
pub proof fn lemma_pulse_follows_cyclic_distance(t: int, timing: int, span: int)
    requires
        0 <= t < PERIOD,
        0 <= timing <= PERIOD,
        span <= PERIOD / 2 + 1,
    ensures
        pulse_level(t, timing, span) == if cyclic_distance(t, timing) < span {
            span - cyclic_distance(t, timing)
        } else {
            0
        },
        cyclic_distance(t, timing) < span ==> pulse_level(t, timing, span) > 0,
{
}

/// One clock unit changes the distance around the circle by one at most,
/// also where the step leads from the last phase of the period to the first.
pub proof fn lemma_cyclic_distance_steps(t: int, timing: int)
    requires
        0 <= t < PERIOD,
        0 <= timing <= PERIOD,
    ensures
        -1 <= cyclic_distance(phase_of(t + 1), timing) - cyclic_distance(t, timing) <= 1,
{
    let next = if t + 1 < PERIOD { t + 1 } else { 0 };
    assert(phase_of(t + 1) == next);
    let ahead = phase_of(t - timing);
    let behind = phase_of(timing - t);
    assert(ahead == if t >= timing { t - timing } else { t - timing + PERIOD });
    assert(behind == if timing - t >= PERIOD { 0 } else if timing >= t { timing - t } else {
        timing - t + PERIOD
    });
    let next_ahead = phase_of(next - timing);
    let next_behind = phase_of(timing - next);
    assert(next_ahead == if next >= timing { next - timing } else { next - timing + PERIOD });
    assert(next_behind == if timing - next >= PERIOD { 0 } else if timing >= next {
        timing - next
    } else {
        timing - next + PERIOD
    });
}

/// For such a timing and half-width, one clock unit changes the pulse by at
/// most one level, also where the step leads from the last phase of the
/// period to the first.
pub proof fn lemma_pulse_continuous_across_seam(t: int, timing: int, span: int)
    requires
        0 <= t < PERIOD,
        0 <= timing <= PERIOD,
        span <= PERIOD / 2 + 1,
    ensures
        -1 <= pulse_level(phase_of(t + 1), timing, span) - pulse_level(t, timing, span) <= 1,
{
    let next = phase_of(t + 1);
    lemma_pulse_follows_cyclic_distance(t, timing, span);
    lemma_pulse_follows_cyclic_distance(next, timing, span);
    lemma_cyclic_distance_steps(t, timing);
    let here = cyclic_distance(t, timing);
    let there = cyclic_distance(next, timing);
    assert(pulse_level(t, timing, span) == if here < span { span - here } else { 0 });
    assert(pulse_level(next, timing, span) == if there < span { span - there } else { 0 });
}

/// Widest half-width that a pulse drawn by hand gets.
pub const WIDEST_DRAWN_SPAN: i32 = 100;

/// Half-width that a strong pulse gets where it was drawn with none.
pub const NARROW_DRAWN_SPAN: i32 = 5;

/// The half-width of a pulse drawn by hand: a strong pulse is never left
/// without width, and no pulse is wider than the cycle.
pub open spec fn drawn_span(raw: i32, strong: bool) -> i32 {
    if raw == 0 && strong {
        NARROW_DRAWN_SPAN
    } else if raw > WIDEST_DRAWN_SPAN {
        WIDEST_DRAWN_SPAN
    } else {
        raw
    }
}

/// Fits the half-width of a pulse drawn by hand.
pub fn fit_span(raw: i32, strong: bool) -> (span: i32)
    ensures
        span == drawn_span(raw, strong),
        span <= WIDEST_DRAWN_SPAN,
{
    if raw == 0 && strong {
        NARROW_DRAWN_SPAN
    } else if raw > WIDEST_DRAWN_SPAN {
        WIDEST_DRAWN_SPAN
    } else {
        raw
    }
}

} // verus!
