//! The canonical record emitted for every applied sample. It crosses the
//! persistence boundary; rendering it as CSV text is the sink's concern.

use crate::sample::SourceType;
use vstd::prelude::*;

verus! {

/// Outcome of the probe behind a record.
#[derive(Clone, Copy, Debug, PartialEq, Eq, Structural)]
pub enum PingStatus {
    Okay,
    Timeout,
}

/// One applied sample, ready for persistence: wall-clock timestamp text,
/// which host was probed, its display address, and the measured latency
/// (absent on timeout).
#[derive(Clone, Debug)]
pub struct PingRecord {
    pub timestamp: String,
    pub target_type: SourceType,
    pub target_ip: String,
    pub latency_us: Option<u64>,
    pub status: PingStatus,
}

/// Mathematical image of a `PingRecord`.
pub ghost struct RecordModel {
    pub timestamp: Seq<char>,
    pub target_type: SourceType,
    pub target_ip: Seq<char>,
    pub latency_us: Option<u64>,
    pub status: PingStatus,
}

impl View for PingRecord {
    type V = RecordModel;

    open spec fn view(&self) -> RecordModel {
        RecordModel {
            timestamp: self.timestamp@,
            target_type: self.target_type,
            target_ip: self.target_ip@,
            latency_us: self.latency_us,
            status: self.status,
        }
    }
}

/// The record an applied sample must produce: `Ok` with the latency when one
/// was measured, `Timeout` with an absent latency otherwise.
pub open spec fn record_of(
    source: SourceType,
    name: Seq<char>,
    latency_us: Option<u64>,
    timestamp: Seq<char>,
) -> RecordModel {
    RecordModel {
        timestamp: timestamp,
        target_type: source,
        target_ip: name,
        latency_us: latency_us,
        status: if latency_us is Some {
            PingStatus::Okay
        } else {
            PingStatus::Timeout
        },
    }
}

} // verus!
