//! Clocks that pace the processor.
//!
//! A clock's `next_tick` blocks until the next tick and reports ticks that were missed. Waiting
//! on time or on the control channel happens outside the library; this module holds what a
//! clock decides: the free clock's answer, the fixed clock's tick arithmetic, and the manual
//! clock's reading of queued control messages.

use crate::{ControlEvent, ControlMessage};
use vstd::prelude::*;

verus! {

/// Whether any ticks were missed before `next_tick` was called.
#[derive(Clone, Copy, Debug, PartialEq, Eq, Structural, Hash)]
pub enum ClockStatus {
    /// No ticks were missed.
    OnTime,
    /// Some ticks were missed.
    MissedTicks(usize),
}

/// A free clock: it ticks whenever asked, without blocking.
#[derive(Clone, Copy, Debug, PartialEq, Eq, Structural, Hash)]
pub struct FreeClock {}

/// A source of clock ticks that the driver waits on before each cycle.
pub trait Clock {
    /// Block until the next tick, and report whether ticks were missed.
    fn next_tick(&mut self) -> ClockStatus;

    /// Restart the clock.
    fn reset(&mut self);
}

impl FreeClock {
    /// Create a new free clock.
    pub fn new() -> (r: Self)
        ensures
            r == (FreeClock {}),
    {
        FreeClock {}
    }
}

impl Clock for FreeClock {
    /// Tick at once; no tick is ever missed.
    fn next_tick(&mut self) -> (r: ClockStatus)
        ensures
            r == ClockStatus::OnTime,
    {
        ClockStatus::OnTime
    }

    /// A free clock has nothing to restart.
    fn reset(&mut self) {
    }
}

/// How a fixed clock waits for its next tick, measured from its previous tick.
#[derive(Clone, Copy, Debug, PartialEq, Eq, Structural, Hash)]
pub struct TickPlan {
    /// Number of tick boundaries that have already passed.
    pub missed: u64,
    /// Time from the previous tick to the tick to wait for, in nanoseconds.
    pub wait: u64,
}

/// The status that reports `missed` missed ticks.
pub open spec fn status_of(missed: u64) -> ClockStatus {
    if missed == 0 {
        ClockStatus::OnTime
    } else {
        ClockStatus::MissedTicks(missed as usize)
    }
}

/// A clock that ticks at a fixed period.
///
/// Times are nanoseconds from the moment the clock was created or last reset. The next tick is
/// the first boundary `prev_tick + k * period` (`k >= 1`) not yet passed, so ticks stay on the
/// phase they started on after a miss.
#[derive(Clone, Copy, Debug, PartialEq, Eq, Structural, Hash)]
pub struct FixedClock {
    /// The period, in nanoseconds.
    pub period: u64,
    /// The time of the previous tick.
    pub prev_tick: u64,
}

impl FixedClock {
    /// Create a clock that ticks every `period` nanoseconds, starting now.
    pub fn new(period: u64) -> (r: Self)
        requires
            period > 0,
        ensures
            r == (FixedClock { period, prev_tick: 0 }),
    {
        FixedClock { period, prev_tick: 0 }
    }

    /// How to wait for the next tick when `elapsed` nanoseconds have passed since the previous
    /// one: the ticks missed are the whole periods elapsed, and the wait runs to the boundary
    /// after them. `None` when the wait does not fit in 64 bits.
    pub fn plan(&self, elapsed: u64) -> (r: Option<TickPlan>)
        requires
            self.period > 0,
        ensures
            elapsed <= self.period ==> r == Some(TickPlan { missed: 0, wait: self.period }),
            elapsed > self.period && self.period * (elapsed / self.period + 1) <= u64::MAX ==> r
                == Some(TickPlan {
                    missed: elapsed / self.period,
                    wait: (self.period * (elapsed / self.period + 1)) as u64,
                }),
            elapsed > self.period && self.period * (elapsed / self.period + 1) > u64::MAX ==> r
                is None,
    {
        if elapsed <= self.period {
            return Some(TickPlan { missed: 0, wait: self.period });
        }
        let missed = elapsed / self.period;
        assert(missed <= elapsed) by (nonlinear_arith)
            requires
                missed == elapsed / self.period,
                self.period > 0,
        ;
        let boundaries = match missed.checked_add(1) {
            Some(b) => b,
            None => {
                assert(self.period * (elapsed / self.period + 1) > u64::MAX) by (nonlinear_arith)
                    requires
                        elapsed / self.period == u64::MAX,
                        self.period > 0,
                ;
                return None;
            },
        };
        match self.period.checked_mul(boundaries) {
            Some(wait) => Some(TickPlan { missed, wait }),
            None => None,
        }
    }

    /// Move to the tick that `plan` waited for, and report the ticks it missed.
    pub fn advance(&mut self, plan: TickPlan) -> (r: ClockStatus)
        requires
            old(self).prev_tick + plan.wait <= u64::MAX,
        ensures
            final(self).period == old(self).period,
            final(self).prev_tick == old(self).prev_tick + plan.wait,
            r == status_of(plan.missed),
    {
        self.prev_tick = self.prev_tick + plan.wait;
        if plan.missed == 0 {
            ClockStatus::OnTime
        } else {
            ClockStatus::MissedTicks(plan.missed as usize)
        }
    }

    /// Restart the clock: times are now measured from this moment.
    pub fn reset(&mut self)
        ensures
            *final(self) == (FixedClock { period: old(self).period, prev_tick: 0 }),
    {
        self.prev_tick = 0;
    }
}

/// What a manual clock does with one event read while it drains the control channel.
#[derive(Clone, Copy, Debug, PartialEq, Eq, Structural, Hash)]
pub enum DrainStep {
    /// Keep reading, having counted `missed` queued ticks so far.
    Continue(usize),
    /// Stop reading: return this status at once, or wait for a tick when there is none.
    Finish(Option<ClockStatus>),
}

/// A manual clock's reading of one control event, with `missed` queued ticks counted so far.
pub open spec fn spec_drain_step(missed: usize, event: ControlEvent) -> DrainStep {
    match event {
        ControlEvent::Message(ControlMessage::ManualTick) => DrainStep::Continue(
            if missed < usize::MAX {
                (missed + 1) as usize
            } else {
                missed
            },
        ),
        ControlEvent::Empty => DrainStep::Finish(
            if missed == 0 {
                None
            } else {
                Some(ClockStatus::MissedTicks(missed))
            },
        ),
        ControlEvent::Message(_) | ControlEvent::Disconnected => DrainStep::Finish(
            Some(if missed == 0 {
                ClockStatus::OnTime
            } else {
                ClockStatus::MissedTicks(missed)
            }),
        ),
    }
}

/// A manually advanced clock, which ticks on each `ManualTick` control message.
#[derive(Clone, Copy, Debug, PartialEq, Eq, Structural, Hash)]
pub struct ManualClock {
    /// Queued ticks counted while draining the control channel.
    pub missed: usize,
}

impl ManualClock {
    /// Create a manual clock.
    pub fn new() -> (r: Self)
        ensures
            r.missed == 0,
    {
        ManualClock { missed: 0 }
    }

    /// Read one event while draining the messages queued before `next_tick` was called.
    ///
    /// Queued ticks were missed. A halt, a reset or a closed channel ends the wait at once, so
    /// that the driver can see it. `Finish(None)` means nothing was queued: wait for a tick.
    pub fn drain_step(&mut self, event: ControlEvent) -> (r: DrainStep)
        ensures
            r == spec_drain_step(old(self).missed, event),
            r matches DrainStep::Continue(m) ==> final(self).missed == m,
            r is Finish ==> final(self).missed == 0,
    {
        match event {
            ControlEvent::Message(ControlMessage::ManualTick) => {
                if self.missed < usize::MAX {
                    self.missed = self.missed + 1;
                }
                DrainStep::Continue(self.missed)
            },
            ControlEvent::Empty => {
                let missed = self.missed;
                self.missed = 0;
                if missed == 0 {
                    DrainStep::Finish(None)
                } else {
                    DrainStep::Finish(Some(ClockStatus::MissedTicks(missed)))
                }
            },
            _ => {
                let missed = self.missed;
                self.missed = 0;
                if missed == 0 {
                    DrainStep::Finish(Some(ClockStatus::OnTime))
                } else {
                    DrainStep::Finish(Some(ClockStatus::MissedTicks(missed)))
                }
            },
        }
    }

    /// Whether an event read while waiting ends the wait: a tick, a halt, a reset or a closed
    /// channel does; the wait then reports no missed tick.
    pub fn wait_ends(event: ControlEvent) -> (r: bool)
        ensures
            r == !(event is Empty),
    {
        match event {
            ControlEvent::Empty => false,
            _ => true,
        }
    }
}

} // verus!
