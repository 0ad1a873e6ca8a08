use vasili::args::{parse_duration_string, Args, PingMode};

#[test]
fn bare_numbers_are_seconds() {
    assert_eq!(parse_duration_string("90"), Some(90000));
    assert_eq!(parse_duration_string("0"), Some(0));
}

#[test]
fn explicit_units() {
    assert_eq!(parse_duration_string("90s"), Some(90000));
    assert_eq!(parse_duration_string("1500ms"), Some(1500));
    assert_eq!(parse_duration_string("5m"), Some(300000));
    assert_eq!(parse_duration_string("2h"), Some(7200000));
}

#[test]
fn whitespace_around_the_unit_is_ignored() {
    assert_eq!(parse_duration_string("5 m"), Some(300000));
    assert_eq!(parse_duration_string("10 "), Some(10000));
    assert_eq!(parse_duration_string("7\tms "), Some(7));
}

#[test]
fn leading_zeros_are_plain_decimal() {
    assert_eq!(parse_duration_string("00012s"), Some(12000));
    assert_eq!(parse_duration_string("0ms"), Some(0));
}

#[test]
fn unknown_units_are_rejected() {
    assert_eq!(parse_duration_string("5d"), None);
    assert_eq!(parse_duration_string("5 sm"), None);
    assert_eq!(parse_duration_string("5msms"), None);
}

#[test]
fn strings_without_a_leading_number_are_rejected() {
    assert_eq!(parse_duration_string(""), None);
    assert_eq!(parse_duration_string("s"), None);
    assert_eq!(parse_duration_string("ms5"), None);
    assert_eq!(parse_duration_string(" 5"), None);
    assert_eq!(parse_duration_string("-5"), None);
}

#[test]
fn overlong_numbers_are_rejected() {
    assert_eq!(parse_duration_string("99999999999999999999"), None);
    // Fits a u64 count of seconds, but not a u64 count of milliseconds.
    assert_eq!(parse_duration_string("18446744073709551615"), None);
    assert_eq!(parse_duration_string("18446744073709551615ms"), Some(u64::MAX));
}

#[test]
fn mode_default_intervals() {
    assert_eq!(PingMode::Gaming.default_interval_ms(), 200);
    assert_eq!(PingMode::Standard.default_interval_ms(), 1000);
    assert_eq!(PingMode::Monitor.default_interval_ms(), 5000);
}

#[test]
fn args_hold_plain_values() {
    let args = Args {
        target: Some("1.1.1.1".to_string()),
        mode: PingMode::Standard,
        duration: Some("5m".to_string()),
        interval: None,
        no_gateway: false,
    };
    assert_eq!(args.mode, PingMode::Standard);
    assert_eq!(parse_duration_string(args.duration.as_deref().unwrap()), Some(300000));
}
