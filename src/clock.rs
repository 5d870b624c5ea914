use vstd::prelude::*;
use crate::Reset;

verus! {

/// `a + b`, held at the largest `u64`.
pub open spec fn sum_capped(a: u64, b: int) -> u64 {
    if a + b > u64::MAX {
        u64::MAX
    } else {
        (a + b) as u64
    }
}

/// A cycle-debt counter: the cycles that have passed, and those that the
/// instruction in flight still owes.
#[derive(Debug, Clone, Copy, PartialEq, Eq, Structural)]
pub struct Clock {
    pub total_ticks: u64,
    pub ticks_left: u64,
}

impl Clock {
    pub open spec fn new_spec() -> Clock {
        Clock { total_ticks: 0, ticks_left: 0 }
    }

    #[verifier::when_used_as_spec(new_spec)]
    pub fn new() -> (r: Clock)
        ensures
            r == Clock::new_spec(),
    {
        Clock { total_ticks: 0, ticks_left: 0 }
    }

    pub fn total_ticks(&self) -> (r: u64)
        ensures
            r == self.total_ticks,
    {
        self.total_ticks
    }

    /// `after` is `before` one cycle later: the debt down by one (never below
    /// zero) and the total up by one (held at its largest value).
    pub open spec fn ticked(before: Clock, after: Clock) -> bool {
        &&& after.ticks_left == if before.ticks_left == 0 {
            0
        } else {
            (before.ticks_left - 1) as u64
        }
        &&& after.total_ticks == if before.total_ticks == u64::MAX {
            u64::MAX
        } else {
            (before.total_ticks + 1) as u64
        }
    }

    /// Counts one cycle. Returns whether the debt is paid.
    pub fn tick(&mut self) -> (r: bool)
        ensures
            Clock::ticked(*old(self), *final(self)),
            r == (final(self).ticks_left == 0),
    {
        self.total_ticks = self.total_ticks.saturating_add(1);
        self.ticks_left = self.ticks_left.saturating_sub(1);
        self.ticks_left == 0
    }

    /// Loads the base cost of the instruction just decoded.
    pub fn set_cycles(&mut self, cycles: u64)
        ensures
            *final(self) == (Clock { ticks_left: cycles, ..*old(self) }),
    {
        self.ticks_left = cycles;
    }

    /// Adds cycles earned by a page crossing, a taken branch or an interrupt;
    /// the debt is held at its largest value rather than wrapping.
    pub fn add_cycles(&mut self, cycles: u64)
        ensures
            *final(self) == (Clock { ticks_left: sum_capped(old(self).ticks_left, cycles as int), ..*old(self) }),
    {
        self.ticks_left = self.ticks_left.saturating_add(cycles);
    }

    pub fn cycles_left(&self) -> (r: u64)
        ensures
            r == self.ticks_left,
    {
        self.ticks_left
    }

    /// Whether the instruction in flight has paid all its cycles.
    pub fn is_ready(&self) -> (r: bool)
        ensures
            r == (self.ticks_left == 0),
    {
        self.ticks_left == 0
    }
}

impl Default for Clock {
    fn default() -> (r: Clock)
        ensures
            r.total_ticks == 0,
            r.ticks_left == 0,
    {
        Clock::new()
    }
}

impl Reset for Clock {
    open spec fn inv(&self) -> bool {
        true
    }

    open spec fn reset_of(&self, before: Self) -> bool {
        self.total_ticks == 0 && self.ticks_left == 0
    }

    fn reset(&mut self) {
        self.total_ticks = 0;
        self.ticks_left = 0;
    }
}

} // verus!
