//! An on/off flag that records for how long it has been on.

use vstd::prelude::*;

verus! {

/// An on/off switch that accumulates the time and the number of ticks for
/// which it has been on. It is meant to be updated once per tick.
#[derive(Debug, Clone, Copy, PartialEq, Eq)]
pub struct FlagTimer {
    pub on: bool,
    /// Nanoseconds accumulated since the flag was last turned on.
    pub time_on: u64,
    /// Ticks counted since the flag was last turned on.
    pub ticks_on: u32,
}

impl FlagTimer {
    /// A flag that is off carries no time and no ticks.
    pub open spec fn wf(self) -> bool {
        !self.on ==> self.time_on == 0 && self.ticks_on == 0
    }

    /// The flag at rest: off, with both counters at zero.
    pub open spec fn idle() -> FlagTimer {
        FlagTimer { on: false, time_on: 0, ticks_on: 0 }
    }

    /// Whether one more tick of `elapsed` nanoseconds fits in the counters.
    pub open spec fn has_room(self, elapsed: u64) -> bool {
        &&& self.time_on + elapsed <= u64::MAX
        &&& self.ticks_on < u32::MAX
    }

    /// The flag after it is turned on for a tick of `elapsed` nanoseconds.
    pub open spec fn turned_on(self, elapsed: u64) -> FlagTimer
        recommends
            self.has_room(elapsed),
    {
        FlagTimer {
            on: true,
            time_on: (self.time_on + elapsed) as u64,
            ticks_on: (self.ticks_on + 1) as u32,
        }
    }

    /// The flag after it is turned off.
    pub open spec fn turned_off(self) -> FlagTimer {
        FlagTimer::idle()
    }

    /// The flag after `n` successive ticks of `elapsed` nanoseconds each.
    pub open spec fn turned_on_times(self, elapsed: u64, n: nat) -> FlagTimer
        decreases n,
    {
        if n == 0 {
            self
        } else {
            self.turned_on_times(elapsed, (n - 1) as nat).turned_on(elapsed)
        }
    }

    /// A flag that is off.
    pub fn new() -> (timer: Self)
        ensures
            timer == FlagTimer::idle(),
            timer.wf(),
    {
        FlagTimer { on: false, time_on: 0, ticks_on: 0 }
    }

    /// Tells whether `on(elapsed)` may be called.
    pub fn can_turn_on(&self, elapsed: u64) -> (fits: bool)
        ensures
            fits == self.has_room(elapsed),
    {
        elapsed <= u64::MAX - self.time_on && self.ticks_on < u32::MAX
    }

    /// Turns the flag on for a tick that lasted `time_on` nanoseconds: the
    /// time is added to the accumulated time and the tick is counted.
    /// Returns the value that `on` had before the call, so that the caller
    /// sees an off-to-on edge.
    pub fn on(&mut self, time_on: u64) -> (last_on: bool)
        requires
            old(self).has_room(time_on),
        ensures
            last_on == old(self).on,
            *final(self) == old(self).turned_on(time_on),
            final(self).on,
            final(self).time_on == old(self).time_on + time_on,
            final(self).ticks_on == old(self).ticks_on + 1,
            final(self).wf(),
    {
        let last_on = self.on;

        self.on = true;
        self.time_on = self.time_on + time_on;
        self.ticks_on = self.ticks_on + 1;

        last_on
    }

    /// Turns the flag off and clears both counters.
    /// Returns the value that `on` had before the call, so that the caller
    /// sees an on-to-off edge.
    pub fn off(&mut self) -> (last_on: bool)
        ensures
            last_on == old(self).on,
            *final(self) == old(self).turned_off(),
            *final(self) == FlagTimer::idle(),
            final(self).wf(),
    {
        let last_on = self.on;

        self.on = false;
        self.time_on = 0;
        self.ticks_on = 0;

        last_on
    }
}

impl Default for FlagTimer {
    fn default() -> (timer: Self)
        ensures
            timer == FlagTimer::idle(),
    {
        FlagTimer::new()
    }
}

/// Turning off a flag that is already off changes nothing, and turning a flag
/// off twice is the same as turning it off once.
pub proof fn lemma_off_is_idempotent(timer: FlagTimer)
    ensures
        timer.wf() && !timer.on ==> timer.turned_off() == timer,
        timer.turned_off().turned_off() == timer.turned_off(),
        timer.turned_off().wf(),
{
}

/// Nothing survives an off cycle: whatever a flag had accumulated, once it
/// has been turned off it goes through the same states as a fresh one.
pub proof fn lemma_off_forgets(timer: FlagTimer, before: u64, elapsed: u64, n: nat)
    ensures
        timer.turned_on(before).turned_off() == FlagTimer::idle(),
        timer.turned_on(before).turned_off().turned_on_times(elapsed, n)
            == FlagTimer::idle().turned_on_times(elapsed, n),
{
}

/// Turning a flag on `n` times in a row, for `elapsed` nanoseconds each time,
/// adds `n * elapsed` to its time and `n` to its ticks, as long as both fit.
pub proof fn lemma_on_accumulates(timer: FlagTimer, elapsed: u64, n: nat)
    requires
        timer.time_on + n * elapsed <= u64::MAX,
        timer.ticks_on + n <= u32::MAX,
    ensures
        timer.turned_on_times(elapsed, n).on == (timer.on || n > 0),
        timer.turned_on_times(elapsed, n).time_on == timer.time_on + n * elapsed,
        timer.turned_on_times(elapsed, n).ticks_on == timer.ticks_on + n,
        n > 0 ==> timer.turned_on_times(elapsed, (n - 1) as nat).has_room(elapsed),
    decreases n,
{
    if n > 0 {
        let m = (n - 1) as nat;
        assert(n * elapsed == m * elapsed + elapsed) by (nonlinear_arith)
            requires
                n == m + 1,
        ;
        assert(m * elapsed >= 0) by (nonlinear_arith);
        lemma_on_accumulates(timer, elapsed, m);
    } else {
        assert(n * elapsed == 0) by (nonlinear_arith)
            requires
                n == 0,
        ;
    }
}

} // verus!
