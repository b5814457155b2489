//! The clock of a node.
use crate::time::{Duration, NodeTime};
use vstd::prelude::*;

verus! {

/// Node local clock.
///
/// A clock ticks at the intervals specified by the user. It is driven from
/// outside, one call of [`Clock::tick`] for each interval that has passed, and
/// never goes back.
#[derive(Debug, Clone, Copy, PartialEq, Eq)]
pub struct Clock {
    ticks: u64,
    tick_interval: Duration,
    now: NodeTime,
}

impl Clock {
    /// The number of ticks so far.
    pub closed spec fn spec_ticks(self) -> nat {
        self.ticks as nat
    }

    /// The interval between two ticks.
    pub closed spec fn spec_tick_interval(self) -> Duration {
        self.tick_interval
    }

    /// The time that the clock shows.
    pub closed spec fn spec_now(self) -> NodeTime {
        self.now
    }

    /// Makes a clock that shows zero.
    pub fn new(tick_interval: Duration) -> (r: Self)
        ensures
            r.spec_ticks() == 0,
            r.spec_tick_interval() == tick_interval,
            r.spec_now().as_nanos() == 0,
    {
        Clock { ticks: 0, tick_interval, now: Duration::zero() }
    }

    /// Returns the elapsed time in ticks since the associated node was created.
    pub fn ticks(&self) -> (t: u64)
        ensures
            t == self.spec_ticks(),
    {
        self.ticks
    }

    /// Returns the tick interval of the clock.
    pub fn tick_interval(&self) -> (d: Duration)
        ensures
            d == self.spec_tick_interval(),
    {
        self.tick_interval
    }

    /// Returns the time that the clock shows.
    pub fn now(&self) -> (t: NodeTime)
        ensures
            t == self.spec_now(),
    {
        self.now
    }

    /// Proceeds the clock by one tick.
    ///
    /// Both the number of ticks and the time stop at the largest value that
    /// they can hold.
    pub fn tick(&mut self)
        ensures
            final(self).spec_tick_interval() == old(self).spec_tick_interval(),
            final(self).spec_ticks() == if old(self).spec_ticks() < u64::MAX {
                old(self).spec_ticks() + 1
            } else {
                old(self).spec_ticks()
            },
            final(self).spec_now().as_nanos() == if old(self).spec_now().as_nanos() + old(
                self,
            ).spec_tick_interval().as_nanos() <= Duration::max_nanos() {
                old(self).spec_now().as_nanos() + old(self).spec_tick_interval().as_nanos()
            } else {
                Duration::max_nanos()
            },
            final(self).spec_now().as_nanos() >= old(self).spec_now().as_nanos(),
    {
        self.ticks = self.ticks.saturating_add(1);
        self.now = self.now.saturating_add(self.tick_interval);
    }
}

} // verus!
