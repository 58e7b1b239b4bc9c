//! The millisecond counter behind the games' clock.
//!
//! On the device a hardware timer fires every few milliseconds and an
//! interrupt handler bumps a shared counter by a fixed step derived
//! from the timer configuration; the main loop reads it between ticks.
//! This module holds that counter's logic: the step, the bump, and the
//! read.  Serializing the bump against the reads is the surrounding
//! binary's duty, as the device's critical section was.

use vstd::prelude::*;

verus! {

/// The timer's clock divider on the device.
pub const PRESCALER: u32 = 256;

/// Timer counts per tick on the device.
pub const TIMER_COUNTS: u32 = 250;

/// Milliseconds added per hardware tick, from the 16 MHz input clock:
/// prescaler times counts per tick over cycles per millisecond.
pub const MILLIS_INCREMENT: u32 = PRESCALER * TIMER_COUNTS / 16_000;

/// The free-running millisecond counter.
pub struct MillisCounter {
    pub ms: u32,
}

impl MillisCounter {
    /// A counter starting at zero, as configuration leaves it.
    pub fn new() -> (c: MillisCounter)
        ensures
            c.ms == 0,
    {
        MillisCounter { ms: 0 }
    }

    /// One hardware tick: the counter grows by the fixed step.  After
    /// about 49 days it wraps around; sessions last minutes, and the
    /// wraparound is accepted rather than guarded against.
    pub fn tick(&mut self)
        ensures
            final(self).ms == ((old(self).ms + MILLIS_INCREMENT) % 0x1_0000_0000) as u32,
    {
        self.ms = self.ms.wrapping_add(MILLIS_INCREMENT);
    }

    /// The current value, in milliseconds since startup.
    pub fn millis(&self) -> (r: u32)
        ensures
            r == self.ms,
    {
        self.ms
    }
}

} // verus!
