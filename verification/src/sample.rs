//! Samples emitted by the probe loops and consumed by the aggregation
//! engine. A timeout is an explicit absent latency, never a sentinel value.

use vstd::prelude::*;

verus! {

/// Which monitored host a sample belongs to.
#[derive(Clone, Copy, Debug, PartialEq, Eq, Structural)]
pub enum SourceType {
    Target,
    Gateway,
}

/// One probe result: the source it came from and the measured round-trip
/// latency in microseconds, or `None` when the probe timed out or failed.
#[derive(Clone, Copy, Debug, PartialEq, Eq, Structural)]
pub struct PingUpdate {
    pub source: SourceType,
    pub latency_us: Option<u64>,
}

} // verus!
