use vasili::engine::{App, KeyCode};
use vasili::record::PingStatus;
use vasili::sample::{PingUpdate, SourceType};

fn ts() -> String {
    "2024-01-01 00:00:00.000".to_string()
}

fn fresh_app(max_duration_ms: Option<u64>, with_gateway: bool) -> App {
    let gateway = if with_gateway {
        Some("192.168.1.1".to_string())
    } else {
        None
    };
    App::at_start("8.8.8.8".to_string(), gateway, 200, 200, max_duration_ms, 0)
}

#[test]
fn zoom_in_steps_and_clamps_at_minimum() {
    // Default zoom for a fast interval is 60 seconds; three zoom-ins reach
    // 30, ten clamp at the 10-second floor.
    let mut app = fresh_app(None, false);
    assert_eq!(app.zoom_window_seconds, 60);
    for _ in 0..3 {
        app.on_key(KeyCode::Char('+'));
    }
    assert_eq!(app.zoom_window_seconds, 30);
    let mut app2 = fresh_app(None, false);
    for _ in 0..10 {
        app2.on_key(KeyCode::Char('+'));
    }
    assert_eq!(app2.zoom_window_seconds, 10);
}

#[test]
fn zoom_default_for_slow_interval() {
    let app = App::at_start("8.8.8.8".to_string(), None, 1000, 1000, None, 0);
    assert_eq!(app.zoom_window_seconds, 300);
}

#[test]
fn zoom_out_is_unbounded_in_steps() {
    let mut app = fresh_app(None, false);
    for _ in 0..5 {
        app.on_key(KeyCode::Down);
    }
    assert_eq!(app.zoom_window_seconds, 110);
    app.on_key(KeyCode::Up);
    assert_eq!(app.zoom_window_seconds, 100);
}

#[test]
fn scroll_stays_between_zero_and_elapsed() {
    let mut app = fresh_app(None, false);
    // Advance the run to 35 elapsed seconds.
    app.apply_sample(SourceType::Target, Some(10000), 35000, ts());
    assert_eq!(app.elapsed_ms, 35000);
    for _ in 0..10 {
        app.on_key(KeyCode::Left);
    }
    assert!(app.scroll_offset_seconds <= 35);
    assert_eq!(app.scroll_offset_seconds, 35);
    for _ in 0..10 {
        app.on_key(KeyCode::Right);
    }
    assert_eq!(app.scroll_offset_seconds, 0);
    app.on_key(KeyCode::Right);
    assert_eq!(app.scroll_offset_seconds, 0);
}

#[test]
fn scroll_is_clamped_on_a_short_run() {
    let mut app = fresh_app(None, false);
    app.apply_sample(SourceType::Target, Some(10000), 5500, ts());
    app.on_key(KeyCode::Left);
    assert_eq!(app.scroll_offset_seconds, 5);
}

#[test]
fn space_toggles_pause_and_paused_runs_ignore_samples() {
    let mut app = fresh_app(None, false);
    app.on_key(KeyCode::Char(' '));
    assert!(app.is_paused);
    let r = app.apply_sample(SourceType::Target, Some(10000), 1000, ts());
    assert!(r.is_none());
    assert_eq!(app.net_stats.total_count, 0);
    assert_eq!(app.elapsed_ms, 0);
    app.on_key(KeyCode::Char(' '));
    assert!(!app.is_paused);
    let r = app.apply_sample(SourceType::Target, Some(10000), 1000, ts());
    assert!(r.is_some());
    assert_eq!(app.net_stats.total_count, 1);
}

#[test]
fn duration_cutoff_finishes_the_run() {
    let mut app = fresh_app(Some(5000), false);
    let r = app.apply_sample(SourceType::Target, Some(10000), 3000, ts());
    assert!(r.is_some());
    assert!(!app.is_finished);
    // This sample pushes the elapsed time past the cap: it is swallowed.
    let r = app.apply_sample(SourceType::Target, Some(10000), 6000, ts());
    assert!(r.is_none());
    assert!(app.is_finished);
    assert_eq!(app.net_stats.total_count, 1);
    // Further samples are no-ops.
    let r = app.apply_sample(SourceType::Target, Some(10000), 7000, ts());
    assert!(r.is_none());
    assert_eq!(app.net_stats.total_count, 1);
    assert_eq!(app.elapsed_ms, 6000);
}

#[test]
fn space_does_not_unpause_a_finished_run() {
    let mut app = fresh_app(Some(1000), false);
    app.apply_sample(SourceType::Target, Some(10000), 2000, ts());
    assert!(app.is_finished);
    app.on_key(KeyCode::Char(' '));
    assert!(!app.is_paused);
}

#[test]
fn quit_stops_sample_processing() {
    let mut app = fresh_app(None, false);
    app.on_key(KeyCode::Char('q'));
    assert!(app.should_quit);
    let r = app.apply_sample(SourceType::Target, Some(10000), 1000, ts());
    assert!(r.is_none());
    assert_eq!(app.net_stats.total_count, 0);
}

#[test]
fn unknown_keys_change_nothing() {
    let mut app = fresh_app(None, false);
    app.on_key(KeyCode::Char('x'));
    app.on_key(KeyCode::Other);
    assert_eq!(app.zoom_window_seconds, 60);
    assert_eq!(app.scroll_offset_seconds, 0);
    assert!(!app.is_paused && !app.should_quit && !app.is_finished);
}

#[test]
fn gateway_samples_are_ignored_without_a_gateway() {
    let mut app = fresh_app(None, false);
    let r = app.apply_sample(SourceType::Gateway, Some(10000), 1000, ts());
    assert!(r.is_none());
    // The elapsed time still advanced.
    assert_eq!(app.elapsed_ms, 1000);
    assert_eq!(app.net_stats.total_count, 0);
}

#[test]
fn gateway_samples_reach_the_gateway_stats() {
    let mut app = fresh_app(None, true);
    let r = app
        .apply_sample(SourceType::Gateway, Some(4000), 1000, ts())
        .unwrap();
    assert_eq!(r.target_type, SourceType::Gateway);
    assert_eq!(r.target_ip, "192.168.1.1");
    assert_eq!(r.latency_us, Some(4000));
    assert_eq!(r.status, PingStatus::Okay);
    let gw = app.gw_stats.as_ref().unwrap();
    assert_eq!(gw.total_count, 1);
    assert_eq!(app.net_stats.total_count, 0);
}

#[test]
fn target_samples_reach_the_target_stats() {
    let mut app = fresh_app(None, true);
    let r = app
        .apply_sample(SourceType::Target, None, 2000, ts())
        .unwrap();
    assert_eq!(r.target_type, SourceType::Target);
    assert_eq!(r.target_ip, "8.8.8.8");
    assert_eq!(r.latency_us, None);
    assert_eq!(r.status, PingStatus::Timeout);
    assert_eq!(app.net_stats.total_count, 1);
    assert_eq!(app.gw_stats.as_ref().unwrap().total_count, 0);
}

#[test]
fn elapsed_time_never_goes_backwards() {
    let mut app = fresh_app(None, false);
    app.apply_sample(SourceType::Target, Some(1000), 9000, ts());
    assert_eq!(app.elapsed_ms, 9000);
    // A sample with an earlier wall-clock reading keeps the high-water mark,
    // and its point is plotted at the earlier time.
    app.apply_sample(SourceType::Target, Some(1000), 4000, ts());
    assert_eq!(app.elapsed_ms, 9000);
    assert_eq!(app.net_stats.points[1].0, 4000);
}

#[test]
fn samples_route_by_their_source_tag() {
    let mut app = fresh_app(None, true);
    let updates = [
        PingUpdate {
            source: SourceType::Target,
            latency_us: Some(9000),
        },
        PingUpdate {
            source: SourceType::Gateway,
            latency_us: None,
        },
        PingUpdate {
            source: SourceType::Target,
            latency_us: Some(11000),
        },
    ];
    for (i, u) in updates.iter().enumerate() {
        app.apply_sample(u.source, u.latency_us, (i as u64 + 1) * 1000, ts());
    }
    assert_eq!(app.net_stats.total_count, 2);
    let gw = app.gw_stats.as_ref().unwrap();
    assert_eq!(gw.total_count, 1);
    assert_eq!(gw.loss_count, 1);
}

#[test]
fn new_app_starts_clean_and_applies_live_samples() {
    let mut app = App::new("8.8.8.8".to_string(), None, 200, 200, None);
    assert_eq!(app.net_stats.total_count, 0);
    assert!(!app.is_paused && !app.is_finished && !app.should_quit);
    assert_eq!(app.zoom_window_seconds, 60);
    let r = app.on_ping(SourceType::Target, Some(15000)).unwrap();
    assert_eq!(r.status, PingStatus::Okay);
    assert_eq!(r.latency_us, Some(15000));
    assert_eq!(app.net_stats.total_count, 1);
    assert_eq!(app.net_stats.last_latency, 15000);
    // The timestamp is rendered as YYYY-MM-DD HH:MM:SS.mmm.
    assert_eq!(r.timestamp.len(), 23);
}
