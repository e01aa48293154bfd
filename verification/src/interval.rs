//! The periodic ticker: a fixed cadence on top of a single-shot delay.

use vstd::prelude::*;

use crate::delay::Delay;
use crate::delay::DelayPoll;
use crate::delay::TimerError;

verus! {

/// What one poll of the ticker produced: the next tick, a driver failure,
/// or nothing yet.
#[derive(Clone, Copy, Debug, PartialEq, Eq)]
pub enum TickPoll {
    /// The next tick is not due yet; the caller should suspend until the
    /// owned delay resolves.
    Pending,
    /// The next tick, as `Ok(timestamp)`, or the timer driver's failure,
    /// surfaced verbatim as `Err`.
    Ready(Result<u64, TimerError>),
}

/// A stream of notifications at a fixed interval.
///
/// Owns one [`Delay`], re-armed in place on every tick, and the period
/// between ticks. The value of each tick, and the basis for the next
/// deadline, is the delay's *target* deadline, never the clock reading at
/// which the consumer observed completion: the produced timestamps are
/// exactly `first, first + period, first + 2 * period, ...` however late
/// the consumer polls.
#[derive(Debug)]
pub struct Interval {
    /// Resolves the next time the `Interval` yields a value.
    delay: Delay,
    /// The duration between values yielded by `Interval`, in nanoseconds.
    duration: u64,
}

impl Interval {
    /// The deadline the owned delay is currently armed for: the value of
    /// the next tick.
    pub closed spec fn deadline(self) -> u64 {
        self.delay.target()
    }

    /// The period between ticks, in nanoseconds.
    pub closed spec fn period(self) -> u64 {
        self.duration
    }

    /// Well-formedness: a cadence is only defined for a positive period.
    pub open spec fn wf(self) -> bool {
        self.period() > 0
    }

    /// Whether the next tick is due at clock reading `now`: a poll at `now`
    /// completes without waiting.
    pub open spec fn is_due(self, now: u64) -> bool {
        now >= self.deadline()
    }

    /// Create a new `Interval` that starts at `at` and yields every
    /// `duration` nanoseconds after that.
    ///
    /// A zero `duration` has no defined cadence and is a programmer error,
    /// excluded by precondition; an unverified caller must check it and
    /// abort.
    pub fn new(at: u64, duration: u64) -> (r: Interval)
        requires
            duration > 0,
        ensures
            r.wf(),
            r.deadline() == at,
            r.period() == duration,
    {
        Interval::new_with_delay(Delay::new(at), duration)
    }

    /// Create a new `Interval` whose first tick is due one full period after
    /// the clock reading `now`: never immediately at construction.
    ///
    /// Equivalent to `Interval::new(now + duration, duration)`; the caller
    /// supplies `now` from the monotonic clock.
    pub fn new_interval(now: u64, duration: u64) -> (r: Interval)
        requires
            duration > 0,
            now + duration <= u64::MAX,
        ensures
            r.wf(),
            r.deadline() == now + duration,
            r.period() == duration,
    {
        Interval::new(now + duration, duration)
    }

    /// Create a new `Interval` from an already-armed delay, for callers with
    /// custom control over the first deadline's arming path.
    pub fn new_with_delay(delay: Delay, duration: u64) -> (r: Interval)
        requires
            duration > 0,
        ensures
            r.wf(),
            r.deadline() == delay.target(),
            r.period() == duration,
    {
        Interval { delay, duration }
    }

    /// Advance the ticker on what one poll of the owned delay reported.
    ///
    /// While the delay is pending, nothing changes. When it has elapsed,
    /// the tick value is the delay's target deadline — not any clock
    /// reading — and the delay is re-armed, in place, one period after
    /// that same deadline, so consumer latency never shifts the cadence.
    /// A driver failure is surfaced verbatim, and the delay is left as it
    /// is: no reset happens on failure.
    pub fn poll_next(&mut self, polled: DelayPoll) -> (r: TickPoll)
        requires
            old(self).wf(),
            polled is Elapsed ==> old(self).deadline() + old(self).period() <= u64::MAX,
        ensures
            final(self).wf(),
            final(self).period() == old(self).period(),
            match polled {
                DelayPoll::Pending => {
                    &&& r == TickPoll::Pending
                    &&& final(self).deadline() == old(self).deadline()
                },
                DelayPoll::Elapsed => {
                    &&& r == TickPoll::Ready(Result::<u64, TimerError>::Ok(old(self).deadline()))
                    &&& final(self).deadline() == old(self).deadline() + old(self).period()
                },
                DelayPoll::Failed(e) => {
                    &&& r == TickPoll::Ready(Result::<u64, TimerError>::Err(e))
                    &&& final(self).deadline() == old(self).deadline()
                },
            },
    {
        match polled {
            DelayPoll::Pending => TickPoll::Pending,
            DelayPoll::Failed(e) => TickPoll::Ready(Err(e)),
            DelayPoll::Elapsed => {
                // The `now` of this tick is the delay's deadline, by
                // design: the time the consumer observed completion plays
                // no part.
                let now = self.delay.deadline();

                // The next tick is due `duration` after the one that just
                // yielded.
                let next = now + self.duration;
                self.delay.reset(next);

                TickPoll::Ready(Ok(now))
            },
        }
    }

    /// Try to advance the ticker against the clock reading `now`: the
    /// non-blocking form of polling, for drivers that check the clock
    /// themselves.
    ///
    /// If the next deadline has passed, yields it and re-arms; otherwise
    /// reports pending and changes nothing. However late `now` is, the
    /// tick yielded is the scheduled deadline, not `now`.
    pub fn poll_at(&mut self, now: u64) -> (r: TickPoll)
        requires
            old(self).wf(),
            old(self).is_due(now) ==> old(self).deadline() + old(self).period() <= u64::MAX,
        ensures
            final(self).wf(),
            final(self).period() == old(self).period(),
            old(self).is_due(now) ==> {
                &&& r == TickPoll::Ready(Result::<u64, TimerError>::Ok(old(self).deadline()))
                &&& final(self).deadline() == old(self).deadline() + old(self).period()
            },
            !old(self).is_due(now) ==> {
                &&& r == TickPoll::Pending
                &&& final(self).deadline() == old(self).deadline()
            },
    {
        if self.delay.is_elapsed(now) {
            self.poll_next(DelayPoll::Elapsed)
        } else {
            self.poll_next(DelayPoll::Pending)
        }
    }

    /// The deadline of the next tick: what the next successful poll yields.
    pub fn current_deadline(&self) -> (r: u64)
        ensures
            r == self.deadline(),
    {
        self.delay.deadline()
    }

    /// The period between ticks, in nanoseconds.
    pub fn period_ns(&self) -> (r: u64)
        ensures
            r == self.period(),
    {
        self.duration
    }
}

/// The deadline armed after `n` successful ticks of a ticker that started
/// at `first`: each tick moves the deadline forward by exactly `period`,
/// as [`Interval::poll_next`] ensures, so this also is the value of tick
/// number `n`.
pub open spec fn deadline_after(first: int, period: int, n: nat) -> int
    decreases n,
{
    if n == 0 {
        first
    } else {
        deadline_after(first, period, (n - 1) as nat) + period
    }
}

/// The values of the first `n` ticks of a ticker that started at `first`.
pub open spec fn ticks(first: int, period: int, n: nat) -> Seq<int> {
    Seq::new(n, |i: int| deadline_after(first, period, i as nat))
}

/// Stepping the deadline `n` times lands exactly on `first + n * period`:
/// the recurrence has a closed form.
pub proof fn lemma_deadline_closed_form(first: int, period: int, n: nat)
    ensures
        deadline_after(first, period, n) == first + n * period,
    decreases n,
{
    if n > 0 {
        let m = (n - 1) as nat;
        lemma_deadline_closed_form(first, period, m);
        assert(m * period + period == (m + 1) * period) by (nonlinear_arith);
        assert(n == m + 1);
    } else {
        assert(n * period == 0) by (nonlinear_arith)
            requires
                n == 0,
        ;
    }
}

/// Drift-free cadence: for every positive period, the sequence of `n`
/// consecutive successful ticks is exactly `first, first + period, ...,
/// first + (n - 1) * period` — consumer latency plays no part, since each
/// next deadline is computed from the previous scheduled deadline.
pub proof fn lemma_drift_free(first: int, period: int, n: nat)
    requires
        period > 0,
    ensures
        ticks(first, period, n) =~= Seq::new(n, |i: int| first + i * period),
{
    assert forall|i: int| 0 <= i < n implies ticks(first, period, n)[i] == first + i * period by {
        lemma_deadline_closed_form(first, period, i as nat);
    }
}

/// Ordering: the tick stream is strictly increasing, exactly one period
/// apart — there is one producer and one logical stream, and no tick is
/// reordered, dropped or coalesced.
pub proof fn lemma_ticks_ordered(first: int, period: int, i: nat)
    requires
        period > 0,
    ensures
        deadline_after(first, period, i + 1) == deadline_after(first, period, i) + period,
        deadline_after(first, period, i + 1) > deadline_after(first, period, i),
{
}

/// A consumer that is late by more than one full period finds the next
/// tick already due: the poll completes without further waiting, and — by
/// the contract of [`Interval::poll_at`] — still yields the scheduled
/// deadline, never the late clock reading.
pub proof fn lemma_late_poll_is_due(iv: Interval, now: u64)
    requires
        iv.wf(),
        now > iv.deadline() + iv.period(),
    ensures
        iv.is_due(now),
{
}

/// A ticker armed one full period after the clock reading `now` is not due
/// at any instant before `now + period`: the first tick never fires
/// immediately at construction, as [`Interval::new_interval`] arms it.
pub proof fn lemma_first_tick_waits_full_period(iv: Interval, now: u64, t: u64)
    requires
        iv.wf(),
        iv.deadline() == now + iv.period(),
        t < now + iv.period(),
    ensures
        !iv.is_due(t),
{
}

} // verus!
