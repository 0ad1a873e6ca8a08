//! Live network-quality monitoring: a sampling and aggregation engine that
//! consumes timestamped latency-or-timeout samples for a target host and,
//! optionally, the local gateway, and maintains rolling statistics (jitter,
//! loss, spikes, nearest-rank percentiles, a letter grade), a scrolling time
//! series, pause/zoom/scroll view state and a run-duration cutoff.
//!
//! Latencies are integer microseconds and plot times integer milliseconds
//! throughout; probing, rendering and persistence stay outside this crate
//! and talk to it in plain values.

pub mod args;
pub mod clock;
pub mod engine;
pub mod order;
pub mod percentile;
pub mod record;
pub mod sample;
pub mod stats;
