//! A periodic-tick generator: a heartbeat layered atop a single-shot delay.
//!
//! The core type, [`interval::Interval`], owns a model of an armed single-shot
//! delay plus a fixed period, and produces a drift-free sequence of tick
//! timestamps: each tick re-arms the delay one period after the *previous
//! scheduled deadline*, never after the time the consumer happened to poll,
//! so consumer latency does not accumulate into drift.
//!
//! Time is measured in nanoseconds on a monotonic clock, as plain `u64`
//! values; the caller chooses the epoch.

pub mod delay;
pub mod interval;
