use interval_timer::delay::Delay;
use interval_timer::delay::DelayPoll;
use interval_timer::delay::TimerError;
use interval_timer::interval::Interval;
use interval_timer::interval::TickPoll;

const MS: u64 = 1_000_000;

#[test]
fn tick_sequence_simulated_clock() {
    // period = 10ms, first deadline = T0; the clock jumps to each deadline.
    let t0: u64 = 5_000 * MS;
    let mut iv = Interval::new(t0, 10 * MS);
    assert_eq!(iv.poll_at(t0), TickPoll::Ready(Ok(t0)));
    assert_eq!(iv.poll_at(t0 + 10 * MS), TickPoll::Ready(Ok(t0 + 10 * MS)));
    assert_eq!(iv.poll_at(t0 + 20 * MS), TickPoll::Ready(Ok(t0 + 20 * MS)));
    assert_eq!(iv.poll_at(t0 + 30 * MS), TickPoll::Ready(Ok(t0 + 30 * MS)));
}

#[test]
fn late_consumer_catches_up() {
    // The consumer misses three periods; the queued ticks come immediately,
    // in order, none dropped, and none of them is the late clock reading.
    let t0: u64 = 5_000 * MS;
    let mut iv = Interval::new(t0, 10 * MS);
    assert_eq!(iv.poll_at(t0), TickPoll::Ready(Ok(t0)));

    let late: u64 = t0 + 35 * MS;
    assert_eq!(iv.poll_at(late), TickPoll::Ready(Ok(t0 + 10 * MS)));
    assert_eq!(iv.poll_at(late), TickPoll::Ready(Ok(t0 + 20 * MS)));
    assert_eq!(iv.poll_at(late), TickPoll::Ready(Ok(t0 + 30 * MS)));
    // The next deadline, t0 + 40ms, is in the future again.
    assert_eq!(iv.poll_at(late), TickPoll::Pending);
}

#[test]
fn drift_free_sequence() {
    // Eight successful ticks are exactly first + i * period, however the
    // delay resolutions were observed.
    let first: u64 = 500;
    let period: u64 = 7;
    let mut iv = Interval::new(first, period);
    for i in 0..8u64 {
        assert_eq!(
            iv.poll_next(DelayPoll::Elapsed),
            TickPoll::Ready(Ok(first + i * period))
        );
    }
}

#[test]
fn first_tick_waits_full_period() {
    // Armed from "now": not due at now, nor just before now + period.
    let now: u64 = 1_000;
    let mut iv = Interval::new_interval(now, 10);
    assert_eq!(iv.current_deadline(), 1_010);
    assert_eq!(iv.poll_at(now), TickPoll::Pending);
    assert_eq!(iv.poll_at(1_009), TickPoll::Pending);
    assert_eq!(iv.poll_at(1_010), TickPoll::Ready(Ok(1_010)));
}

#[test]
fn error_surfaced_verbatim() {
    let mut iv = Interval::new(100, 10);
    assert_eq!(
        iv.poll_next(DelayPoll::Failed(TimerError::Shutdown)),
        TickPoll::Ready(Err(TimerError::Shutdown))
    );
    // The delay is left as it was: no reset happens on failure.
    assert_eq!(iv.current_deadline(), 100);

    let mut iv2 = Interval::new(100, 10);
    assert_eq!(
        iv2.poll_next(DelayPoll::Failed(TimerError::AtCapacity)),
        TickPoll::Ready(Err(TimerError::AtCapacity))
    );
}

#[test]
fn pending_changes_nothing() {
    let mut iv = Interval::new(200, 50);
    assert_eq!(iv.poll_next(DelayPoll::Pending), TickPoll::Pending);
    assert_eq!(iv.poll_next(DelayPoll::Pending), TickPoll::Pending);
    assert_eq!(iv.current_deadline(), 200);
    assert_eq!(iv.period_ns(), 50);
    assert_eq!(iv.poll_next(DelayPoll::Elapsed), TickPoll::Ready(Ok(200)));
    assert_eq!(iv.current_deadline(), 250);
}

#[test]
fn new_with_delay_uses_armed_deadline() {
    let d = Delay::new(42);
    let mut iv = Interval::new_with_delay(d, 8);
    assert_eq!(iv.period_ns(), 8);
    assert_eq!(iv.poll_at(41), TickPoll::Pending);
    assert_eq!(iv.poll_at(42), TickPoll::Ready(Ok(42)));
    assert_eq!(iv.current_deadline(), 50);
}

#[test]
fn delay_rearms_in_place() {
    let mut d = Delay::new(30);
    assert_eq!(d.deadline(), 30);
    assert!(!d.is_elapsed(29));
    assert!(d.is_elapsed(30));
    assert!(d.is_elapsed(31));
    d.reset(60);
    assert_eq!(d.deadline(), 60);
    assert!(!d.is_elapsed(59));
    assert!(d.is_elapsed(60));
}
