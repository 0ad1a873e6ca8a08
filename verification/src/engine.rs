//! The aggregation engine: one `App` owns the per-host statistics, the run
//! state (elapsed time, pause/finish/quit flags, optional duration cap) and
//! the view state (zoom window and scroll offset). Samples and key presses
//! are applied by the single consumer; probe loops never touch this state.

use crate::clock;
use crate::record::{record_of, PingRecord, RecordModel};
use crate::sample::SourceType;
use crate::stats::{init_stats, step, HostStats, StatsModel};
use vstd::prelude::*;

verus! {

/// Key presses the engine reacts to, as plain values: the consumer converts
/// terminal events into these at the boundary.
#[derive(Clone, Copy, Debug, PartialEq, Eq, Structural)]
pub enum KeyCode {
    Char(char),
    Up,
    Down,
    Left,
    Right,
    Other,
}

/// Smallest zoom window, in seconds; also the zoom step.
pub const ZOOM_STEP_SECONDS: u64 = 10;

/// Scroll step, in seconds.
pub const SCROLL_STEP_SECONDS: u64 = 10;

/// Mathematical image of `App`.
#[verifier::ext_equal]
pub ghost struct AppModel {
    pub net: StatsModel,
    pub gw: Option<StatsModel>,
    pub start_ms: u64,
    pub elapsed_ms: u64,
    pub configured_interval: u64,
    pub zoom_window_seconds: u64,
    pub scroll_offset_seconds: u64,
    pub is_paused: bool,
    pub should_quit: bool,
    pub is_finished: bool,
    pub max_duration_ms: Option<u64>,
}

impl AppModel {
    /// Both hosts' statistics are well-formed, the zoom window is a positive
    /// multiple of the zoom step, and the scroll offset never leaves
    /// `[0, elapsed seconds]`.
    pub open spec fn wf(self) -> bool {
        &&& self.net.wf()
        &&& (self.gw matches Some(g) ==> g.wf())
        &&& self.zoom_window_seconds >= ZOOM_STEP_SECONDS
        &&& self.zoom_window_seconds % ZOOM_STEP_SECONDS == 0
        &&& self.scroll_offset_seconds <= self.elapsed_ms / 1000
    }
}

/// The view of an optional display name.
pub open spec fn name_view(name: Option<String>) -> Option<Seq<char>> {
    match name {
        Some(n) => Some(n@),
        None => None,
    }
}

/// The engine state right after startup: fresh statistics (gateway ones only
/// when a gateway is monitored), zero elapsed time, a zoom default chosen
/// from the probe interval, and all flags clear.
pub open spec fn init_app(
    target: Seq<char>,
    gateway: Option<Seq<char>>,
    interval_ms: u64,
    configured_interval: u64,
    max_duration_ms: Option<u64>,
    start_ms: u64,
) -> AppModel {
    AppModel {
        net: init_stats(target),
        gw: match gateway {
            Some(g) => Some(init_stats(g)),
            None => None,
        },
        start_ms: start_ms,
        elapsed_ms: 0,
        configured_interval: configured_interval,
        zoom_window_seconds: if interval_ms <= 200 {
            60
        } else {
            300
        },
        scroll_offset_seconds: 0,
        is_paused: false,
        should_quit: false,
        is_finished: false,
        max_duration_ms: max_duration_ms,
    }
}

/// Zoom in: shrink the window by one step, stopping at the smallest window.
pub open spec fn zoom_in(m: AppModel) -> AppModel {
    if m.zoom_window_seconds > ZOOM_STEP_SECONDS {
        AppModel { zoom_window_seconds: (m.zoom_window_seconds - ZOOM_STEP_SECONDS) as u64, ..m }
    } else {
        m
    }
}

/// Zoom out: grow the window by one step, without a practical bound.
pub open spec fn zoom_out(m: AppModel) -> AppModel {
    if m.zoom_window_seconds <= u64::MAX - ZOOM_STEP_SECONDS {
        AppModel { zoom_window_seconds: (m.zoom_window_seconds + ZOOM_STEP_SECONDS) as u64, ..m }
    } else {
        m
    }
}

/// Scroll back in time by one step, clamped to the elapsed seconds.
pub open spec fn scroll_back(m: AppModel) -> AppModel {
    let limit = (m.elapsed_ms / 1000) as u64;
    if m.scroll_offset_seconds + SCROLL_STEP_SECONDS <= limit {
        AppModel {
            scroll_offset_seconds: (m.scroll_offset_seconds + SCROLL_STEP_SECONDS) as u64,
            ..m
        }
    } else {
        AppModel { scroll_offset_seconds: limit, ..m }
    }
}

/// Scroll forward towards live view by one step, clamped to zero.
pub open spec fn scroll_forward(m: AppModel) -> AppModel {
    if m.scroll_offset_seconds >= SCROLL_STEP_SECONDS {
        AppModel {
            scroll_offset_seconds: (m.scroll_offset_seconds - SCROLL_STEP_SECONDS) as u64,
            ..m
        }
    } else {
        AppModel { scroll_offset_seconds: 0, ..m }
    }
}

/// The pure key transition: quit from any state, pause toggles unless
/// finished, zoom and scroll as above, anything else ignored.
pub open spec fn key_step(m: AppModel, key: KeyCode) -> AppModel {
    match key {
        KeyCode::Char(c) => {
            if c == 'q' {
                AppModel { should_quit: true, ..m }
            } else if c == ' ' {
                if !m.is_finished {
                    AppModel { is_paused: !m.is_paused, ..m }
                } else {
                    m
                }
            } else if c == '+' {
                zoom_in(m)
            } else if c == '-' {
                zoom_out(m)
            } else {
                m
            }
        },
        KeyCode::Up => zoom_in(m),
        KeyCode::Down => zoom_out(m),
        KeyCode::Left => scroll_back(m),
        KeyCode::Right => scroll_forward(m),
        KeyCode::Other => m,
    }
}

/// Wall-clock elapsed milliseconds since the run started, clamped to zero
/// when the clock reads earlier than the start.
pub open spec fn time_since_start(start_ms: u64, now_ms: u64) -> u64 {
    if now_ms >= start_ms {
        (now_ms - start_ms) as u64
    } else {
        0
    }
}

/// What applying one sample does to the whole engine. A paused, finished or
/// quitting run ignores the sample. Otherwise the elapsed time advances to
/// the wall clock (never backwards); if that reaches the duration cap the run
/// finishes and the triggering sample produces no record; otherwise the
/// sample is routed to the matching host statistics (ignored when the
/// gateway is unmonitored) and yields its canonical record.
pub open spec fn sample_step(
    m: AppModel,
    source: SourceType,
    latency_us: Option<u64>,
    now_ms: u64,
    timestamp: Seq<char>,
) -> (AppModel, Option<RecordModel>) {
    if m.is_paused || m.is_finished || m.should_quit {
        (m, None)
    } else {
        let t = time_since_start(m.start_ms, now_ms);
        let m1 = AppModel {
            elapsed_ms: if t > m.elapsed_ms {
                t
            } else {
                m.elapsed_ms
            },
            ..m
        };
        let cut = match m1.max_duration_ms {
            Some(mx) => m1.elapsed_ms >= mx,
            None => false,
        };
        if cut {
            (AppModel { is_finished: true, ..m1 }, None)
        } else {
            match source {
                SourceType::Target => (
                    AppModel { net: step(m1.net, latency_us, t, now_ms), ..m1 },
                    Some(record_of(source, m1.net.name, latency_us, timestamp)),
                ),
                SourceType::Gateway => match m1.gw {
                    Some(g) => (
                        AppModel { gw: Some(step(g, latency_us, t, now_ms)), ..m1 },
                        Some(record_of(source, g.name, latency_us, timestamp)),
                    ),
                    None => (m1, None),
                },
            }
        }
    }
}

/// The aggregation engine's whole state.
pub struct App {
    pub net_stats: HostStats,
    pub gw_stats: Option<HostStats>,
    pub start_ms: u64,
    pub elapsed_ms: u64,
    pub configured_interval: u64,
    pub zoom_window_seconds: u64,
    pub scroll_offset_seconds: u64,
    pub is_paused: bool,
    pub should_quit: bool,
    pub is_finished: bool,
    pub max_duration_ms: Option<u64>,
}

impl View for App {
    type V = AppModel;

    open spec fn view(&self) -> AppModel {
        AppModel {
            net: self.net_stats@,
            gw: match self.gw_stats {
                Some(g) => Some(g@),
                None => None,
            },
            start_ms: self.start_ms,
            elapsed_ms: self.elapsed_ms,
            configured_interval: self.configured_interval,
            zoom_window_seconds: self.zoom_window_seconds,
            scroll_offset_seconds: self.scroll_offset_seconds,
            is_paused: self.is_paused,
            should_quit: self.should_quit,
            is_finished: self.is_finished,
            max_duration_ms: self.max_duration_ms,
        }
    }
}

impl App {
    pub open spec fn wf(&self) -> bool {
        self@.wf()
    }

    /// The engine state for a run that started at wall-clock `start_ms`.
    /// `interval_ms` picks the zoom default; `configured_interval` is kept
    /// for display.
    pub fn at_start(
        target_host: String,
        gateway_host: Option<String>,
        interval_ms: u64,
        configured_interval: u64,
        max_duration_ms: Option<u64>,
        start_ms: u64,
    ) -> (r: App)
        ensures
            r@ == init_app(
                target_host@,
                name_view(gateway_host),
                interval_ms,
                configured_interval,
                max_duration_ms,
                start_ms,
            ),
            r.wf(),
    {
        let ghost gw_name = name_view(gateway_host);
        let r = App {
            net_stats: HostStats::new(target_host),
            gw_stats: match gateway_host {
                Some(h) => Some(HostStats::new(h)),
                None => None,
            },
            start_ms,
            elapsed_ms: 0,
            configured_interval,
            zoom_window_seconds: if interval_ms <= 200 {
                60
            } else {
                300
            },
            scroll_offset_seconds: 0,
            is_paused: false,
            should_quit: false,
            is_finished: false,
            max_duration_ms,
        };
        proof {
            assert(r@ =~= init_app(
                r.net_stats.display_name@,
                gw_name,
                interval_ms,
                configured_interval,
                max_duration_ms,
                start_ms,
            ));
        }
        r
    }

    /// The engine state for a run that starts now, on the wall clock.
    pub fn new(
        target_host: String,
        gateway_host: Option<String>,
        interval_ms: u64,
        configured_interval: u64,
        max_duration_ms: Option<u64>,
    ) -> (r: App)
        ensures
            r@ == init_app(
                target_host@,
                name_view(gateway_host),
                interval_ms,
                configured_interval,
                max_duration_ms,
                r@.start_ms,
            ),
            r.wf(),
    {
        let start_ms = clock::now_millis();
        let r = App::at_start(
            target_host,
            gateway_host,
            interval_ms,
            configured_interval,
            max_duration_ms,
            start_ms,
        );
        r
    }

    /// Applies one key press; a pure state transition that never fails.
    pub fn on_key(&mut self, key: KeyCode)
        requires
            old(self).wf(),
        ensures
            final(self)@ == key_step(old(self)@, key),
            final(self).wf(),
    {
        match key {
            KeyCode::Char(c) => {
                if c == 'q' {
                    self.should_quit = true;
                } else if c == ' ' {
                    if !self.is_finished {
                        self.is_paused = !self.is_paused;
                    }
                } else if c == '+' {
                    self.do_zoom_in();
                } else if c == '-' {
                    self.do_zoom_out();
                }
            },
            KeyCode::Up => self.do_zoom_in(),
            KeyCode::Down => self.do_zoom_out(),
            KeyCode::Left => {
                let limit = self.elapsed_ms / 1000;
                if limit >= SCROLL_STEP_SECONDS && self.scroll_offset_seconds <= limit
                    - SCROLL_STEP_SECONDS {
                    self.scroll_offset_seconds = self.scroll_offset_seconds + SCROLL_STEP_SECONDS;
                } else {
                    self.scroll_offset_seconds = limit;
                }
                proof {
                    assert(self@ =~= scroll_back(old(self)@));
                }
            },
            KeyCode::Right => {
                if self.scroll_offset_seconds >= SCROLL_STEP_SECONDS {
                    self.scroll_offset_seconds = self.scroll_offset_seconds - SCROLL_STEP_SECONDS;
                } else {
                    self.scroll_offset_seconds = 0;
                }
            },
            KeyCode::Other => {},
        }
    }

    fn do_zoom_in(&mut self)
        ensures
            final(self)@ == zoom_in(old(self)@),
    {
        if self.zoom_window_seconds > ZOOM_STEP_SECONDS {
            self.zoom_window_seconds = self.zoom_window_seconds - ZOOM_STEP_SECONDS;
        }
    }

    fn do_zoom_out(&mut self)
        ensures
            final(self)@ == zoom_out(old(self)@),
    {
        if self.zoom_window_seconds <= u64::MAX - ZOOM_STEP_SECONDS {
            self.zoom_window_seconds = self.zoom_window_seconds + ZOOM_STEP_SECONDS;
        }
    }

    /// Applies one sample against the given wall-clock reading and timestamp
    /// text. Deterministic in its arguments: the returned record and the new
    /// state are exactly those of `sample_step`.
    pub fn apply_sample(
        &mut self,
        source: SourceType,
        latency_us: Option<u64>,
        now_ms: u64,
        timestamp: String,
    ) -> (r: Option<PingRecord>)
        requires
            old(self).wf(),
            old(self)@.net.total_count < u64::MAX,
            old(self)@.gw matches Some(g) ==> g.total_count < u64::MAX,
        ensures
            final(self)@ == sample_step(old(self)@, source, latency_us, now_ms, timestamp@).0,
            final(self).wf(),
            (match r {
                Some(rec) => sample_step(old(self)@, source, latency_us, now_ms, timestamp@).1
                    == Some(rec@),
                None => sample_step(old(self)@, source, latency_us, now_ms, timestamp@).1 is None,
            }),
    {
        if self.is_paused || self.is_finished || self.should_quit {
            return None;
        }
        let t = if now_ms >= self.start_ms {
            now_ms - self.start_ms
        } else {
            0
        };
        if t > self.elapsed_ms {
            self.elapsed_ms = t;
        }
        proof {
            vstd::arithmetic::div_mod::lemma_div_is_ordered(
                old(self)@.elapsed_ms as int,
                self@.elapsed_ms as int,
                1000,
            );
        }
        let cut = match self.max_duration_ms {
            Some(mx) => self.elapsed_ms >= mx,
            None => false,
        };
        if cut {
            self.is_finished = true;
            proof {
                assert(self@ =~= sample_step(old(self)@, source, latency_us, now_ms, timestamp@).0);
            }
            return None;
        }
        match source {
            SourceType::Target => {
                let rec = self.net_stats.update(source, latency_us, t, now_ms, timestamp);
                proof {
                    assert(self@ =~= sample_step(
                        old(self)@,
                        source,
                        latency_us,
                        now_ms,
                        rec.timestamp@,
                    ).0);
                }
                Some(rec)
            },
            SourceType::Gateway => {
                match &mut self.gw_stats {
                    Some(gw) => {
                        let rec = gw.update(source, latency_us, t, now_ms, timestamp);
                        proof {
                            assert(self@ =~= sample_step(
                                old(self)@,
                                source,
                                latency_us,
                                now_ms,
                                rec.timestamp@,
                            ).0);
                        }
                        Some(rec)
                    },
                    None => {
                        proof {
                            assert(self@ =~= sample_step(
                                old(self)@,
                                source,
                                latency_us,
                                now_ms,
                                timestamp@,
                            ).0);
                        }
                        None
                    },
                }
            },
        }
    }

    /// Applies one sample at the current wall-clock time. Whatever the clock
    /// returned, the transition is one `sample_step`; a paused, finished or
    /// quitting run is left untouched, the elapsed time never decreases, and
    /// the view state is untouched.
    pub fn on_ping(&mut self, source: SourceType, latency_us: Option<u64>) -> (r: Option<
        PingRecord,
    >)
        requires
            old(self).wf(),
            old(self)@.net.total_count < u64::MAX,
            old(self)@.gw matches Some(g) ==> g.total_count < u64::MAX,
        ensures
            final(self).wf(),
            exists|now_ms: u64, ts: Seq<char>|
                {
                    &&& final(self)@ == sample_step(old(self)@, source, latency_us, now_ms, ts).0
                    &&& (match r {
                        Some(rec) => sample_step(old(self)@, source, latency_us, now_ms, ts).1
                            == Some(rec@),
                        None => sample_step(old(self)@, source, latency_us, now_ms, ts).1 is None,
                    })
                },
            old(self)@.is_paused || old(self)@.is_finished || old(self)@.should_quit
                ==> final(self)@ == old(self)@ && r is None,
            final(self)@.elapsed_ms >= old(self)@.elapsed_ms,
            old(self)@.is_finished ==> final(self)@.is_finished,
            final(self)@.zoom_window_seconds == old(self)@.zoom_window_seconds,
            final(self)@.scroll_offset_seconds == old(self)@.scroll_offset_seconds,
    {
        let now_ms = clock::now_millis();
        let timestamp = clock::local_timestamp();
        let ghost ts = timestamp@;
        let r = self.apply_sample(source, latency_us, now_ms, timestamp);
        proof {
            assert(self@ == sample_step(old(self)@, source, latency_us, now_ms, ts).0);
        }
        r
    }
}

/// Engine states after whole key sequences.
pub open spec fn key_step_all(m: AppModel, keys: Seq<KeyCode>) -> AppModel
    decreases keys.len(),
{
    if keys.len() == 0 {
        m
    } else {
        key_step_all(key_step(m, keys[0]), keys.drop_first())
    }
}

/// One key press preserves well-formedness, never touches the elapsed time,
/// and never clears the finished flag.
pub proof fn lemma_key_step_wf(m: AppModel, key: KeyCode)
    requires
        m.wf(),
    ensures
        key_step(m, key).wf(),
        key_step(m, key).elapsed_ms == m.elapsed_ms,
        key_step(m, key).is_finished == m.is_finished,
{
}

/// Under any key sequence, the scroll offset stays within
/// `[0, elapsed seconds]`, and the elapsed time is untouched.
pub proof fn lemma_scroll_stays_in_range(m: AppModel, keys: Seq<KeyCode>)
    requires
        m.wf(),
    ensures
        key_step_all(m, keys).wf(),
        key_step_all(m, keys).elapsed_ms == m.elapsed_ms,
        key_step_all(m, keys).scroll_offset_seconds <= m.elapsed_ms / 1000,
    decreases keys.len(),
{
    if keys.len() > 0 {
        lemma_key_step_wf(m, keys[0]);
        lemma_scroll_stays_in_range(key_step(m, keys[0]), keys.drop_first());
    }
}

/// A sample that is applied while the run is paused, finished or quitting
/// changes nothing and produces no record.
pub proof fn lemma_inactive_run_ignores_samples(
    m: AppModel,
    source: SourceType,
    latency_us: Option<u64>,
    now_ms: u64,
    timestamp: Seq<char>,
)
    requires
        m.is_paused || m.is_finished || m.should_quit,
    ensures
        sample_step(m, source, latency_us, now_ms, timestamp) == (m, Option::<RecordModel>::None),
{
}

/// The duration cutoff: when a running engine's elapsed time reaches the cap
/// while applying a sample, the run finishes, the triggering sample produces
/// no record, and no statistics change.
pub proof fn lemma_duration_cutoff(
    m: AppModel,
    source: SourceType,
    latency_us: Option<u64>,
    now_ms: u64,
    timestamp: Seq<char>,
)
    requires
        !m.is_paused,
        !m.is_finished,
        !m.should_quit,
        m.max_duration_ms matches Some(mx) && (m.elapsed_ms >= mx || time_since_start(
            m.start_ms,
            now_ms,
        ) >= mx),
    ensures
        sample_step(m, source, latency_us, now_ms, timestamp).0.is_finished,
        sample_step(m, source, latency_us, now_ms, timestamp).1 is None,
        sample_step(m, source, latency_us, now_ms, timestamp).0.net == m.net,
        sample_step(m, source, latency_us, now_ms, timestamp).0.gw == m.gw,
{
}

/// One probe outcome, with the wall-clock values it was applied at, for
/// stating properties of whole runs.
pub ghost struct ProbeEvent {
    pub source: SourceType,
    pub latency_us: Option<u64>,
    pub now_ms: u64,
    pub timestamp: Seq<char>,
}

/// Engine states after whole sample sequences.
pub open spec fn sample_step_all(m: AppModel, events: Seq<ProbeEvent>) -> AppModel
    decreases events.len(),
{
    if events.len() == 0 {
        m
    } else {
        sample_step_all(
            sample_step(m, events[0].source, events[0].latency_us, events[0].now_ms, events[0].timestamp).0,
            events.drop_first(),
        )
    }
}

/// Once the run is finished, every further sample sequence leaves the whole
/// engine state unchanged: `apply` calls are no-ops from then on.
pub proof fn lemma_finished_absorbs_samples(m: AppModel, events: Seq<ProbeEvent>)
    requires
        m.is_finished,
    ensures
        sample_step_all(m, events) == m,
    decreases events.len(),
{
    if events.len() > 0 {
        lemma_finished_absorbs_samples(m, events.drop_first());
    }
}

} // verus!
