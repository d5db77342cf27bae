//! The two countdown timers.
//!
//! Both count down by one each time a sixtieth of a second of wall-clock time
//! has gone by since they last did, and stop at zero. Nothing but an
//! instruction ever raises them. Wall-clock time is counted in nanoseconds
//! since the Unix epoch.

use crate::model::Machine;
use vstd::prelude::*;

verus! {

/// Milliseconds that must have passed before the timers count down again:
/// a sixtieth of a second, rounded down.
pub const TICK_MILLIS: u128 = 16;

/// Nanoseconds in a millisecond.
pub const NANOS_PER_MILLI: u128 = 1_000_000;

/// The clock read earlier than at the last tick.
#[derive(Clone, Copy, Debug, PartialEq, Eq)]
pub struct ClockWentBackwards;

/// A timer one tick later.
pub open spec fn count_down(timer: u8) -> u8 {
    if timer > 0 {
        (timer - 1) as u8
    } else {
        0
    }
}

/// Whole milliseconds between the last tick and `now`.
pub open spec fn elapsed_millis(m: Machine, now: u128) -> int {
    (now - m.last_tick) / (NANOS_PER_MILLI as int)
}

/// Whether a tick is due at time `now`: the clock has not gone backwards and
/// at least a sixtieth of a second has passed since the last tick.
pub open spec fn tick_due(m: Machine, now: u128) -> bool {
    now >= m.last_tick && elapsed_millis(m, now) >= TICK_MILLIS
}

/// The machine after the clock has been looked at at time `now`: where a
/// tick is due both timers count down and `now` becomes the time of the last
/// tick; otherwise nothing changes.
pub open spec fn tick_spec(m: Machine, now: u128) -> Machine {
    if tick_due(m, now) {
        Machine {
            delay_timer: count_down(m.delay_timer),
            sound_timer: count_down(m.sound_timer),
            last_tick: now,
            ..m
        }
    } else {
        m
    }
}

/// The machine after the clock has been looked at once at each of `times`,
/// in order.
pub open spec fn ticks_spec(m: Machine, times: Seq<u128>) -> Machine
    decreases times.len(),
{
    if times.len() == 0 {
        m
    } else {
        tick_spec(ticks_spec(m, times.drop_last()), times.last())
    }
}

} // verus!
