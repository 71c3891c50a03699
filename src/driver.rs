use vstd::prelude::*;

verus! {

/// Length of one simulation tick in nanoseconds: sixty ticks a second.
pub const TICK_NANOS: u64 = 16_666_666;

/// Below this much time left before the next tick, the driver does not sleep.
pub const MIN_IDLE_NANOS: u64 = 500_000;

/// Sleeping ends this much before the next tick is due, against oversleeping.
pub const IDLE_MARGIN_NANOS: u64 = 100_000;

/// What the driver does after measuring the time that passed.
#[derive(PartialEq, Eq, Structural, Clone, Copy, Debug)]
pub enum Step {
    /// Run one simulation tick.
    Tick,
    /// Sleep this many nanoseconds.
    Sleep(u64),
    /// Check the time again at once.
    Spin,
}

/// How the driver waits for `difference` nanoseconds until the next tick.
pub open spec fn idle_step(difference: u64) -> Step {
    if difference > MIN_IDLE_NANOS {
        Step::Sleep((difference - IDLE_MARGIN_NANOS) as u64)
    } else {
        Step::Spin
    }
}

/// The time accumulated towards the next simulation tick.
#[derive(PartialEq, Eq, Structural, Clone, Copy, Debug)]
pub struct TickClock {
    pub accumulated: u64,
}

impl TickClock {
    pub open spec fn wf(&self) -> bool {
        self.accumulated < TICK_NANOS
    }

    pub fn new() -> (r: TickClock)
        ensures
            r.wf(),
            r.accumulated == 0,
    {
        TickClock { accumulated: 0 }
    }

    /// Accounts for `elapsed` nanoseconds of wall-clock time, of which at most one tick
    /// counts. Once a tick's worth has accumulated it is spent on one tick; otherwise
    /// the driver idles until the next is due.
    pub fn iterate(&mut self, elapsed: u64) -> (r: Step)
        requires
            old(self).wf(),
        ensures
            final(self).wf(),
            ({
                let total = old(self).accumulated + if elapsed > TICK_NANOS {
                    TICK_NANOS
                } else {
                    elapsed
                };
                if total >= TICK_NANOS {
                    r == Step::Tick && final(self).accumulated == total - TICK_NANOS
                } else {
                    r == idle_step((TICK_NANOS - total) as u64) && final(self).accumulated == total
                }
            }),
    {
        let counted = if elapsed > TICK_NANOS {
            TICK_NANOS
        } else {
            elapsed
        };
        self.accumulated = self.accumulated + counted;
        if self.accumulated >= TICK_NANOS {
            self.accumulated = self.accumulated - TICK_NANOS;
            Step::Tick
        } else {
            idle(TICK_NANOS - self.accumulated)
        }
    }
}

/// Sleeps until shortly before the next tick, unless that is too close to bother.
pub fn idle(difference: u64) -> (r: Step)
    ensures
        r == idle_step(difference),
{
    if difference > MIN_IDLE_NANOS {
        Step::Sleep(difference - IDLE_MARGIN_NANOS)
    } else {
        Step::Spin
    }
}

} // verus!
