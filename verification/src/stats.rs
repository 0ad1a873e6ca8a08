//! Per-host rolling statistics: the time series shown in the chart, jitter
//! and loss counters, spike counters, and cached percentiles of the raw
//! latency history. All latencies are integer microseconds; all plot time
//! coordinates are integer milliseconds since the run started.

use crate::percentile::{
    percentile_of, percentile_triple, window_of, MIN_PERCENTILE_SAMPLES, PERCENTILE_WINDOW,
};
use crate::record::{record_of, PingRecord, PingStatus};
use crate::sample::SourceType;
use vstd::prelude::*;

verus! {

/// A successful sample at or above this latency counts as a major spike.
pub const MAJOR_SPIKE_US: u64 = 100000;

/// A successful sample at or above this latency, and below the major
/// threshold, counts as a minor spike.
pub const MINOR_SPIKE_US: u64 = 30000;

/// Height at which a loss marker is plotted, in microseconds.
pub const LOSS_MARKER_US: u64 = 100000;

/// While the raw history holds fewer samples than this, percentiles are
/// recomputed on every successful sample.
pub const EAGER_RECALC_LIMIT: usize = 50;

/// Once the history is larger, percentiles are recomputed at most once per
/// this many wall-clock milliseconds.
pub const RECALC_PERIOD_MS: u64 = 1000;

/// Mathematical image of `HostStats`.
#[verifier::ext_equal]
pub ghost struct StatsModel {
    pub name: Seq<char>,
    pub points: Seq<(u64, u64)>,
    pub jitter_points: Seq<(u64, u64)>,
    pub loss_points: Seq<(u64, u64)>,
    pub all_latencies: Seq<u64>,
    pub last_latency: u64,
    pub current_jitter: u64,
    pub total_count: u64,
    pub loss_count: u64,
    pub spikes_minor: u64,
    pub spikes_major: u64,
    pub p25: u64,
    pub p75: u64,
    pub p99: u64,
    pub last_recalc_ms: u64,
}

impl StatsModel {
    /// Every applied sample leaves exactly one point or one loss marker, the
    /// loss count counts the loss markers, each successful sample leaves one
    /// plotted point, one jitter point and one raw history entry, and the two
    /// spike classes are mutually exclusive per sample.
    pub open spec fn wf(self) -> bool {
        &&& self.total_count == self.points.len() + self.loss_points.len()
        &&& self.loss_count == self.loss_points.len()
        &&& self.jitter_points.len() == self.points.len()
        &&& self.all_latencies.len() == self.points.len()
        &&& self.spikes_minor + self.spikes_major <= self.total_count
    }
}

/// Fresh statistics for a host: empty series, zeroed counters.
pub open spec fn init_stats(name: Seq<char>) -> StatsModel {
    StatsModel {
        name: name,
        points: Seq::<(u64, u64)>::empty(),
        jitter_points: Seq::<(u64, u64)>::empty(),
        loss_points: Seq::<(u64, u64)>::empty(),
        all_latencies: Seq::<u64>::empty(),
        last_latency: 0,
        current_jitter: 0,
        total_count: 0,
        loss_count: 0,
        spikes_minor: 0,
        spikes_major: 0,
        p25: 0,
        p75: 0,
        p99: 0,
        last_recalc_ms: 0,
    }
}

/// Jitter of a successful sample: 0 while no earlier success is recorded
/// (`last` still 0), otherwise the absolute difference from the previous
/// latency.
pub open spec fn jitter_of(last: u64, v: u64) -> u64 {
    if last == 0 {
        0
    } else if v >= last {
        (v - last) as u64
    } else {
        (last - v) as u64
    }
}

/// What one percentile recalculation does: once the raw history holds more
/// than `MIN_PERCENTILE_SAMPLES` values, the cached p25/p75/p99 become the
/// nearest-rank percentiles of the bounded window; otherwise nothing changes.
pub open spec fn recalc_spec(m: StatsModel) -> StatsModel {
    if m.all_latencies.len() > MIN_PERCENTILE_SAMPLES {
        StatsModel {
            p25: percentile_of(m.all_latencies, 25),
            p75: percentile_of(m.all_latencies, 75),
            p99: percentile_of(m.all_latencies, 99),
            ..m
        }
    } else {
        m
    }
}

/// Recalculation policy: eager while the history is small, then throttled to
/// once per `RECALC_PERIOD_MS` of wall-clock time.
pub open spec fn should_recalc(m: StatsModel, now_ms: u64) -> bool {
    ||| m.all_latencies.len() < EAGER_RECALC_LIMIT
    ||| (now_ms >= RECALC_PERIOD_MS && now_ms - RECALC_PERIOD_MS >= m.last_recalc_ms)
}

/// What applying one sample does to the statistics. A timeout counts a loss
/// and a major spike and leaves a loss marker; a success updates jitter,
/// history, spike counters and both plotted series, then possibly
/// recalculates percentiles.
pub open spec fn step(
    m: StatsModel,
    latency_us: Option<u64>,
    time_ms: u64,
    now_ms: u64,
) -> StatsModel {
    match latency_us {
        None => StatsModel {
            total_count: (m.total_count + 1) as u64,
            loss_count: (m.loss_count + 1) as u64,
            spikes_major: (m.spikes_major + 1) as u64,
            loss_points: m.loss_points.push((time_ms, LOSS_MARKER_US)),
            ..m
        },
        Some(v) => {
            let j = jitter_of(m.last_latency, v);
            let m1 = StatsModel {
                total_count: (m.total_count + 1) as u64,
                last_latency: v,
                current_jitter: j,
                all_latencies: m.all_latencies.push(v),
                spikes_major: if v >= MAJOR_SPIKE_US {
                    (m.spikes_major + 1) as u64
                } else {
                    m.spikes_major
                },
                spikes_minor: if v < MAJOR_SPIKE_US && v >= MINOR_SPIKE_US {
                    (m.spikes_minor + 1) as u64
                } else {
                    m.spikes_minor
                },
                points: m.points.push((time_ms, v)),
                jitter_points: m.jitter_points.push((time_ms, j)),
                ..m
            };
            if should_recalc(m1, now_ms) {
                StatsModel { last_recalc_ms: now_ms, ..recalc_spec(m1) }
            } else {
                m1
            }
        },
    }
}

/// Whether the loss rate reaches `tenths` tenths of a percent of the total.
/// An empty total counts as zero loss.
pub open spec fn loss_percent_at_least(loss: u64, total: u64, tenths: int) -> bool {
    total > 0 && loss * 1000 >= total * tenths
}

/// Whether any loss at all was recorded.
pub open spec fn loss_positive(loss: u64, total: u64) -> bool {
    total > 0 && loss > 0
}

/// The letter grade, from the loss rate and the cached 99th percentile, with
/// stricter thresholds for gateway traffic. The most severe matching
/// threshold wins.
pub open spec fn grade_spec(loss: u64, total: u64, p99_us: u64, is_gateway: bool) -> Seq<char> {
    if is_gateway {
        if loss_percent_at_least(loss, total, 10) || p99_us >= 50000 {
            "F"@
        } else if loss_positive(loss, total) || p99_us >= 25000 {
            "C"@
        } else if p99_us >= 10000 {
            "B"@
        } else if p99_us >= 5000 {
            "A"@
        } else {
            "S"@
        }
    } else {
        if loss_percent_at_least(loss, total, 50) || p99_us >= 150000 {
            "F"@
        } else if loss_percent_at_least(loss, total, 20) || p99_us >= 100000 {
            "C"@
        } else if loss_percent_at_least(loss, total, 5) || p99_us >= 70000 {
            "B"@
        } else if loss_positive(loss, total) || p99_us >= 40000 {
            "A"@
        } else {
            "S"@
        }
    }
}

/// Rolling statistics for one monitored host.
pub struct HostStats {
    pub display_name: String,
    pub points: Vec<(u64, u64)>,
    pub jitter_points: Vec<(u64, u64)>,
    pub loss_points: Vec<(u64, u64)>,
    pub all_latencies: Vec<u64>,
    pub last_latency: u64,
    pub current_jitter: u64,
    pub total_count: u64,
    pub loss_count: u64,
    pub spikes_minor: u64,
    pub spikes_major: u64,
    pub p25: u64,
    pub p75: u64,
    pub p99: u64,
    pub last_recalc_ms: u64,
}

impl View for HostStats {
    type V = StatsModel;

    open spec fn view(&self) -> StatsModel {
        StatsModel {
            name: self.display_name@,
            points: self.points@,
            jitter_points: self.jitter_points@,
            loss_points: self.loss_points@,
            all_latencies: self.all_latencies@,
            last_latency: self.last_latency,
            current_jitter: self.current_jitter,
            total_count: self.total_count,
            loss_count: self.loss_count,
            spikes_minor: self.spikes_minor,
            spikes_major: self.spikes_major,
            p25: self.p25,
            p75: self.p75,
            p99: self.p99,
            last_recalc_ms: self.last_recalc_ms,
        }
    }
}

impl HostStats {
    pub open spec fn wf(&self) -> bool {
        self@.wf()
    }

    pub fn new(display_name: String) -> (r: HostStats)
        ensures
            r@ == init_stats(display_name@),
            r.wf(),
    {
        let r = HostStats {
            display_name,
            points: Vec::new(),
            jitter_points: Vec::new(),
            loss_points: Vec::new(),
            all_latencies: Vec::new(),
            last_latency: 0,
            current_jitter: 0,
            total_count: 0,
            loss_count: 0,
            spikes_minor: 0,
            spikes_major: 0,
            p25: 0,
            p75: 0,
            p99: 0,
            last_recalc_ms: 0,
        };
        proof {
            assert(r@ =~= init_stats(r.display_name@));
        }
        r
    }

    /// Applies one sample at plot time `time_ms`, with `now_ms` the wall
    /// clock driving the recalculation throttle and `timestamp` the rendered
    /// wall-clock time of the sample, and returns the canonical record.
    pub fn update(
        &mut self,
        source: SourceType,
        latency_us: Option<u64>,
        time_ms: u64,
        now_ms: u64,
        timestamp: String,
    ) -> (r: PingRecord)
        requires
            old(self).wf(),
            old(self)@.total_count < u64::MAX,
        ensures
            final(self)@ == step(old(self)@, latency_us, time_ms, now_ms),
            final(self).wf(),
            r@ == record_of(source, old(self)@.name, latency_us, timestamp@),
    {
        proof {
            lemma_step_preserves_wf(old(self)@, latency_us, time_ms, now_ms);
        }
        self.total_count = self.total_count + 1;
        match latency_us {
            None => {
                self.loss_count = self.loss_count + 1;
                self.spikes_major = self.spikes_major + 1;
                self.loss_points.push((time_ms, LOSS_MARKER_US));
                let r = PingRecord {
                    timestamp,
                    target_type: source,
                    target_ip: self.display_name.clone(),
                    latency_us: None,
                    status: PingStatus::Timeout,
                };
                proof {
                    assert(self@ =~= step(old(self)@, latency_us, time_ms, now_ms));
                }
                r
            },
            Some(v) => {
                let jitter: u64 = if self.last_latency == 0 {
                    0
                } else if v >= self.last_latency {
                    v - self.last_latency
                } else {
                    self.last_latency - v
                };
                self.last_latency = v;
                self.current_jitter = jitter;
                self.all_latencies.push(v);
                if v >= MAJOR_SPIKE_US {
                    self.spikes_major = self.spikes_major + 1;
                } else if v >= MINOR_SPIKE_US {
                    self.spikes_minor = self.spikes_minor + 1;
                }
                self.points.push((time_ms, v));
                self.jitter_points.push((time_ms, jitter));
                let wants_recalc = self.all_latencies.len() < EAGER_RECALC_LIMIT || (now_ms
                    >= RECALC_PERIOD_MS && now_ms - RECALC_PERIOD_MS >= self.last_recalc_ms);
                if wants_recalc {
                    self.recalculate_percentiles();
                    self.last_recalc_ms = now_ms;
                }
                let r = PingRecord {
                    timestamp,
                    target_type: source,
                    target_ip: self.display_name.clone(),
                    latency_us: Some(v),
                    status: PingStatus::Okay,
                };
                proof {
                    assert(self@ =~= step(old(self)@, latency_us, time_ms, now_ms));
                }
                r
            },
        }
    }

    /// Recomputes the cached percentiles from the bounded window of the raw
    /// history; a no-op while the history is too small.
    pub fn recalculate_percentiles(&mut self)
        ensures
            final(self)@ == recalc_spec(old(self)@),
    {
        let len = self.all_latencies.len();
        if len > MIN_PERCENTILE_SAMPLES {
            let start = if len > PERCENTILE_WINDOW {
                len - PERCENTILE_WINDOW
            } else {
                0
            };
            let (p25, p75, p99) = percentile_triple(&self.all_latencies, start);
            proof {
                assert(window_of(self.all_latencies@) =~= self.all_latencies@.subrange(
                    start as int,
                    len as int,
                ));
            }
            self.p25 = p25;
            self.p75 = p75;
            self.p99 = p99;
            proof {
                assert(self@ =~= recalc_spec(old(self)@));
            }
        } else {
            proof {
                assert(self@ =~= recalc_spec(old(self)@));
            }
        }
    }

    /// The letter grade for this host's current loss rate and tail latency.
    pub fn calculate_grade(&self, is_gateway: bool) -> (r: &'static str)
        ensures
            r@ == grade_spec(self@.loss_count, self@.total_count, self@.p99, is_gateway),
    {
        let loss = self.loss_count as u128;
        let total = self.total_count as u128;
        let any_loss = self.total_count > 0 && self.loss_count > 0;
        if is_gateway {
            if (self.total_count > 0 && loss * 1000 >= total * 10) || self.p99 >= 50000 {
                "F"
            } else if any_loss || self.p99 >= 25000 {
                "C"
            } else if self.p99 >= 10000 {
                "B"
            } else if self.p99 >= 5000 {
                "A"
            } else {
                "S"
            }
        } else {
            if (self.total_count > 0 && loss * 1000 >= total * 50) || self.p99 >= 150000 {
                "F"
            } else if (self.total_count > 0 && loss * 1000 >= total * 20) || self.p99 >= 100000 {
                "C"
            } else if (self.total_count > 0 && loss * 1000 >= total * 5) || self.p99 >= 70000 {
                "B"
            } else if any_loss || self.p99 >= 40000 {
                "A"
            } else {
                "S"
            }
        }
    }
}

/// One sample together with the times it was applied at, for stating
/// properties of whole sample sequences.
pub ghost struct SampleEvent {
    pub latency_us: Option<u64>,
    pub time_ms: u64,
    pub now_ms: u64,
}

/// The statistics after applying a whole sequence of samples in order.
pub open spec fn step_all(m: StatsModel, events: Seq<SampleEvent>) -> StatsModel
    decreases events.len(),
{
    if events.len() == 0 {
        m
    } else {
        step_all(
            step(m, events[0].latency_us, events[0].time_ms, events[0].now_ms),
            events.drop_first(),
        )
    }
}

/// How many events of a sequence carry an absent latency.
pub open spec fn loss_events(events: Seq<SampleEvent>) -> int
    decreases events.len(),
{
    if events.len() == 0 {
        0
    } else {
        (if events[0].latency_us is None {
            1int
        } else {
            0int
        }) + loss_events(events.drop_first())
    }
}

pub proof fn lemma_loss_events_bounds(events: Seq<SampleEvent>)
    ensures
        0 <= loss_events(events) <= events.len(),
    decreases events.len(),
{
    if events.len() > 0 {
        lemma_loss_events_bounds(events.drop_first());
    }
}

/// One applied sample adds one to the total, adds one to the loss count
/// exactly when the latency is absent, and keeps the statistics well-formed.
pub proof fn lemma_step_preserves_wf(
    m: StatsModel,
    latency_us: Option<u64>,
    time_ms: u64,
    now_ms: u64,
)
    requires
        m.wf(),
        m.total_count < u64::MAX,
    ensures
        step(m, latency_us, time_ms, now_ms).wf(),
        step(m, latency_us, time_ms, now_ms).total_count == m.total_count + 1,
        step(m, latency_us, time_ms, now_ms).loss_count == m.loss_count + (
        if latency_us is None {
            1int
        } else {
            0int
        }),
{
}

/// For every sequence of applied samples: the sample total equals the number
/// of plotted points plus loss markers, and the loss count grows by exactly
/// the number of absent-latency samples.
pub proof fn lemma_counts_track_samples(m: StatsModel, events: Seq<SampleEvent>)
    requires
        m.wf(),
        m.total_count + events.len() <= u64::MAX,
    ensures
        ({
            let r = step_all(m, events);
            &&& r.wf()
            &&& r.total_count == m.total_count + events.len()
            &&& r.points.len() + r.loss_points.len() == r.total_count
            &&& r.loss_count == m.loss_count + loss_events(events)
        }),
    decreases events.len(),
{
    if events.len() > 0 {
        let e = events[0];
        lemma_step_preserves_wf(m, e.latency_us, e.time_ms, e.now_ms);
        lemma_counts_track_samples(step(m, e.latency_us, e.time_ms, e.now_ms), events.drop_first());
        lemma_loss_events_bounds(events.drop_first());
    }
}

/// Starting from fresh statistics, over any applied-sample sequence the loss
/// count is exactly the number of absent-latency samples and the total count
/// is the number of samples: the loss fraction equals the fraction of
/// absent-latency samples.
pub proof fn lemma_loss_fraction(name: Seq<char>, events: Seq<SampleEvent>)
    requires
        events.len() <= u64::MAX,
    ensures
        step_all(init_stats(name), events).total_count == events.len(),
        step_all(init_stats(name), events).loss_count == loss_events(events),
{
    lemma_counts_track_samples(init_stats(name), events);
}

/// The jitter rule: a successful sample while no earlier success is recorded
/// has jitter 0; otherwise its jitter is exactly the absolute difference from
/// the previous latency.
pub proof fn lemma_jitter_rule(m: StatsModel, v: u64, time_ms: u64, now_ms: u64)
    requires
        m.wf(),
        m.total_count < u64::MAX,
    ensures
        step(m, Some(v), time_ms, now_ms).current_jitter == jitter_of(m.last_latency, v),
        m.last_latency == 0 ==> step(m, Some(v), time_ms, now_ms).current_jitter == 0,
        m.last_latency != 0 && v >= m.last_latency ==> step(
            m,
            Some(v),
            time_ms,
            now_ms,
        ).current_jitter == v - m.last_latency,
        m.last_latency != 0 && v < m.last_latency ==> step(
            m,
            Some(v),
            time_ms,
            now_ms,
        ).current_jitter == m.last_latency - v,
{
}

/// Recalculating percentiles a second time with no new samples changes
/// nothing: the cached percentiles depend only on the raw history, which a
/// recalculation never touches.
pub proof fn lemma_recalc_idempotent(m: StatsModel)
    ensures
        recalc_spec(recalc_spec(m)) == recalc_spec(m),
{
    assert(recalc_spec(recalc_spec(m)) =~= recalc_spec(m));
}

/// Whenever the raw history holds more than `MIN_PERCENTILE_SAMPLES` values,
/// the recalculated percentiles are ordered: p25 <= p75 <= p99.
pub proof fn lemma_cached_percentiles_ordered(m: StatsModel)
    requires
        m.all_latencies.len() > MIN_PERCENTILE_SAMPLES,
    ensures
        recalc_spec(m).p25 <= recalc_spec(m).p75,
        recalc_spec(m).p75 <= recalc_spec(m).p99,
{
    crate::percentile::lemma_percentiles_ordered(m.all_latencies, 25, 75);
    crate::percentile::lemma_percentiles_ordered(m.all_latencies, 75, 99);
}

} // verus!
