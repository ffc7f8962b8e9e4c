//! The delay and sound timers, which count down sixty times a second of
//! wall-clock time, however fast instructions run.

use vstd::prelude::*;

verus! {

/// Timer ticks in one second.
pub const TICKS_PER_SECOND: u64 = 60;

/// The length of one tick in the unit that `TimerPair::fraction` counts:
/// sixtieths of a microsecond.
pub const FRACTION_PER_TICK: u64 = 1_000_000;

/// A timer value after `ticks` ticks: it counts down by one per tick and
/// stays at zero.
pub open spec fn counted_down(value: u8, ticks: int) -> u8 {
    if ticks >= value as int {
        0u8
    } else if ticks <= 0 {
        value
    } else {
        (value as int - ticks) as u8
    }
}

/// Sixtieths of a microsecond on the clock after `elapsed_micros` more
/// microseconds, counted from the last tick that `fraction` was measured
/// from.
pub open spec fn elapsed_fraction(fraction: u32, elapsed_micros: u64) -> int {
    fraction as int + TICKS_PER_SECOND as int * elapsed_micros as int
}

/// The two countdown timers and the time since their last tick. They are
/// plain state with no rule among them, so the fields are open.
#[derive(Clone, Copy, Debug, PartialEq, Eq, Structural)]
pub struct TimerPair {
    /// The delay timer.
    pub delay: u8,
    /// The sound timer.
    pub sound: u8,
    /// Time since the last tick, in sixtieths of a microsecond.
    pub fraction: u32,
}

impl TimerPair {
    /// The timers after `ticks` whole ticks; the time since the last tick is
    /// kept.
    pub open spec fn after_ticks(self, ticks: int) -> TimerPair {
        TimerPair {
            delay: counted_down(self.delay, ticks),
            sound: counted_down(self.sound, ticks),
            fraction: self.fraction,
        }
    }

    /// The timers after `elapsed_micros` microseconds of wall-clock time:
    /// every whole sixtieth of a second that has gone by since the last tick
    /// is one tick, and what is left over is carried to the next call.
    pub open spec fn after_micros(self, elapsed_micros: u64) -> TimerPair {
        let total = elapsed_fraction(self.fraction, elapsed_micros);
        TimerPair {
            delay: counted_down(self.delay, total / FRACTION_PER_TICK as int),
            sound: counted_down(self.sound, total / FRACTION_PER_TICK as int),
            fraction: (total % FRACTION_PER_TICK as int) as u32,
        }
    }

    /// Both timers at zero.
    pub fn new() -> (r: Self)
        ensures
            r == (TimerPair { delay: 0, sound: 0, fraction: 0 }),
    {
        TimerPair { delay: 0, sound: 0, fraction: 0 }
    }

    /// One tick: each timer that is not zero goes down by one.
    pub fn tick(&mut self)
        ensures
            *final(self) == old(self).after_ticks(1),
    {
        if self.delay > 0 {
            self.delay = self.delay - 1;
        }
        if self.sound > 0 {
            self.sound = self.sound - 1;
        }
    }

    /// Lets `elapsed_micros` microseconds of wall-clock time go by.
    pub fn advance(&mut self, elapsed_micros: u64)
        ensures
            *final(self) == old(self).after_micros(elapsed_micros),
    {
        assert(TICKS_PER_SECOND as int * elapsed_micros as int <= 60 * 0xFFFF_FFFF_FFFF_FFFF);
        let scaled: u128 = (TICKS_PER_SECOND as u128) * (elapsed_micros as u128);
        let total: u128 = self.fraction as u128 + scaled;
        let ticks: u128 = total / (FRACTION_PER_TICK as u128);
        let rest: u128 = total % (FRACTION_PER_TICK as u128);
        self.delay = if ticks >= self.delay as u128 {
            0
        } else {
            self.delay - (ticks as u8)
        };
        self.sound = if ticks >= self.sound as u128 {
            0
        } else {
            self.sound - (ticks as u8)
        };
        self.fraction = rest as u32;
    }
}

} // verus!
