//! The slideshow's timer.
//!
//! The clock remembers when the image was last switched. Each frame asks it
//! once whether the interval has run out; when it has, the clock starts the
//! next interval at that frame, whatever the selection then brings.

use vstd::prelude::*;

verus! {

/// The two states of the timer at a given time.
#[derive(Clone, Copy, Debug, PartialEq, Eq, Structural)]
pub enum SchedulerState {
    /// Less than one interval has passed since the last switch.
    Waiting,
    /// A whole interval, or more, has passed since the last switch.
    Due,
}

/// The time of the last switch, and the length of the interval between
/// switches, in one unit of the caller's choice.
#[derive(Clone, Copy, Debug, PartialEq, Eq, Structural)]
pub struct SlideshowClock {
    pub interval: u64,
    pub last_switch: u64,
}

/// The time that has passed from `last_switch` to `now`; none where `now`
/// lies before `last_switch`.
pub open spec fn elapsed(last_switch: u64, now: u64) -> int {
    if now >= last_switch {
        now - last_switch
    } else {
        0
    }
}

impl SlideshowClock {
    /// The state of the timer at the time `now`.
    pub open spec fn state_at(self, now: u64) -> SchedulerState {
        if elapsed(self.last_switch, now) >= self.interval {
            SchedulerState::Due
        } else {
            SchedulerState::Waiting
        }
    }

    /// A clock whose first interval starts at `now`.
    pub fn new(interval: u64, now: u64) -> (clock: SlideshowClock)
        ensures
            clock.interval == interval,
            clock.last_switch == now,
    {
        SlideshowClock { interval, last_switch: now }
    }

    /// The state of the timer at the time `now`.
    pub fn state(&self, now: u64) -> (state: SchedulerState)
        ensures
            state == self.state_at(now),
    {
        let passed: u64 = if now >= self.last_switch {
            now - self.last_switch
        } else {
            0
        };
        if passed >= self.interval {
            SchedulerState::Due
        } else {
            SchedulerState::Waiting
        }
    }

    /// One frame at the time `now`. Returns whether a switch is due; if it
    /// is, the next interval starts at `now`, and if it is not, the clock
    /// stays as it was.
    pub fn tick(&mut self, now: u64) -> (due: bool)
        ensures
            due == (old(self).state_at(now) is Due),
            final(self).interval == old(self).interval,
            final(self).last_switch == if due {
                now
            } else {
                old(self).last_switch
            },
    {
        match self.state(now) {
            SchedulerState::Due => {
                self.last_switch = now;
                true
            },
            SchedulerState::Waiting => false,
        }
    }
}

/// After a switch at the time `at`, the timer waits for one whole interval:
/// it is not due before `at + interval`, and due from then on.
pub proof fn lemma_one_switch_per_interval(clock: SlideshowClock, at: u64, now: u64)
    requires
        clock.last_switch == at,
        now >= at,
    ensures
        clock.state_at(now) is Due <==> now - at >= clock.interval,
        clock.state_at(now) is Waiting <==> now < at + clock.interval,
{
}

} // verus!
