//! The LED's blink schedule: which level to drive on each pass of the main loop.
use vstd::prelude::*;

verus! {

/// Passes spent driving the LED low in each period.
pub const LOW_PASSES: u32 = 2_000_000;

/// Passes spent driving the LED high in each period.
pub const HIGH_PASSES: u32 = 10_000_000;

/// Where the main loop stands in the blink period.
#[derive(Clone, Copy, Debug, PartialEq, Eq, Structural)]
pub struct BlinkSchedule {
    /// Whether the current phase drives high.
    pub high: bool,
    /// Passes left in the current phase, this one included.
    pub remaining: u32,
}

/// The number of passes in the phase that drives `high`.
pub open spec fn phase_len(high: bool) -> u32 {
    if high {
        HIGH_PASSES
    } else {
        LOW_PASSES
    }
}

impl BlinkSchedule {
    /// Whether the schedule stands inside a phase.
    pub open spec fn wf(self) -> bool {
        1 <= self.remaining <= phase_len(self.high)
    }

    /// The schedule at the start of the loop: the first pass of the low phase.
    pub fn new() -> (r: BlinkSchedule)
        ensures
            r.wf(),
            !r.high,
            r.remaining == LOW_PASSES,
    {
        BlinkSchedule { high: false, remaining: LOW_PASSES }
    }

    /// The level to drive on this pass (`true` for high), moving the schedule
    /// on by one pass: the last pass of a phase starts the other phase.
    pub fn next_level(&mut self) -> (r: bool)
        requires
            old(self).wf(),
        ensures
            final(self).wf(),
            r == old(self).high,
            old(self).remaining > 1 ==> final(self).high == old(self).high && final(self).remaining
                == old(self).remaining - 1,
            old(self).remaining == 1 ==> final(self).high == !old(self).high
                && final(self).remaining == phase_len(!old(self).high),
    {
        let level = self.high;
        if self.remaining > 1 {
            self.remaining = self.remaining - 1;
        } else {
            self.high = !self.high;
            self.remaining = if self.high {
                HIGH_PASSES
            } else {
                LOW_PASSES
            };
        }
        level
    }
}

} // verus!
