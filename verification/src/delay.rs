//! A model of the single-shot deadline collaborator.
//!
//! The real delay primitive registers itself with a timer driver and resolves
//! once its deadline passes; that registration machinery is outside this
//! crate. What the tick logic reads of a delay is only the point in time it
//! is armed for, so the model holds exactly that: the target deadline, in
//! nanoseconds of a monotonic clock. Whether the deadline has passed is
//! decided against a clock reading supplied by the driver loop.

use vstd::prelude::*;

verus! {

/// The error reported by the timer driver when it cannot serve a delay:
/// the driver was shut down, or it is at capacity. It is surfaced to the
/// consumer of a tick stream verbatim.
#[derive(Clone, Copy, Debug, PartialEq, Eq, Structural)]
pub enum TimerError {
    /// The timer driver was shut down and will never resolve the delay.
    Shutdown,
    /// The timer driver cannot track another delay.
    AtCapacity,
}

/// What one poll of the armed delay reported.
#[derive(Clone, Copy, Debug, PartialEq, Eq, Structural)]
pub enum DelayPoll {
    /// The deadline has not passed yet; the caller should suspend.
    Pending,
    /// The deadline has passed; the delay resolved.
    Elapsed,
    /// The timer driver failed; the delay will not resolve.
    Failed(TimerError),
}

/// A single-shot deadline: armed for one point in time, re-armable in place.
#[derive(Debug)]
pub struct Delay {
    deadline: u64,
}

impl Delay {
    /// The point in time this delay is armed for.
    pub closed spec fn target(self) -> u64 {
        self.deadline
    }

    /// Construct a delay armed for `deadline`.
    pub fn new(deadline: u64) -> (d: Delay)
        ensures
            d.target() == deadline,
    {
        Delay { deadline }
    }

    /// The deadline this delay is currently armed for.
    pub fn deadline(&self) -> (r: u64)
        ensures
            r == self.target(),
    {
        self.deadline
    }

    /// Re-arm this delay for a new deadline, in place.
    pub fn reset(&mut self, new_deadline: u64)
        ensures
            final(self).target() == new_deadline,
    {
        self.deadline = new_deadline;
    }

    /// Whether the deadline has passed at clock reading `now`.
    pub fn is_elapsed(&self, now: u64) -> (r: bool)
        ensures
            r == (now >= self.target()),
    {
        now >= self.deadline
    }
}

} // verus!
