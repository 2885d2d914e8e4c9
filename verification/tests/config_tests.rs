use screen_splitter::config::{build_config, parse_u32, parse_u64};
use screen_splitter::errors::StartupConfigError;

#[test]
fn parse_u64_accepts_plain_digits() {
    assert_eq!(parse_u64(&b"30".to_vec()), Some(30));
    assert_eq!(parse_u64(&b"1".to_vec()), Some(1));
    assert_eq!(parse_u64(&b"0".to_vec()), Some(0));
    assert_eq!(parse_u64(&b"007".to_vec()), Some(7));
}

#[test]
fn parse_u64_rejects_empty_and_non_digits() {
    assert_eq!(parse_u64(&b"".to_vec()), None);
    assert_eq!(parse_u64(&b"abc".to_vec()), None);
    assert_eq!(parse_u64(&b"12a".to_vec()), None);
    assert_eq!(parse_u64(&b"-1".to_vec()), None);
    assert_eq!(parse_u64(&b" 1".to_vec()), None);
}

#[test]
fn parse_u64_handles_the_largest_value() {
    assert_eq!(parse_u64(&b"18446744073709551615".to_vec()), Some(u64::MAX));
    assert_eq!(parse_u64(&b"18446744073709551616".to_vec()), None);
    assert_eq!(parse_u64(&b"99999999999999999999999".to_vec()), None);
}

#[test]
fn parse_u32_bounds() {
    assert_eq!(parse_u32(&b"4294967295".to_vec()), Some(u32::MAX));
    assert_eq!(parse_u32(&b"4294967296".to_vec()), None);
    assert_eq!(parse_u32(&b"60".to_vec()), Some(60));
    assert_eq!(parse_u32(&b"x".to_vec()), None);
}

#[test]
fn build_config_accepts_valid_arguments() {
    let r = build_config(&b"1".to_vec(), &b"30".to_vec(), false, "Monitor 1".to_string());
    let c = r.expect("valid arguments must be accepted");
    assert_eq!(c.monitor_id, 1);
    assert_eq!(c.settings.target_fps, 30);
    assert!(c.settings.offscreen);
    assert_eq!(c.settings.window_title, "Monitor 1".to_string());
}

#[test]
fn build_config_onscreen_flag_disables_offscreen() {
    let r = build_config(&b"2".to_vec(), &b"30".to_vec(), true, "Monitor 2".to_string());
    let c = r.expect("valid arguments must be accepted");
    assert!(!c.settings.offscreen);
}

#[test]
fn build_config_rejects_bad_monitor_id() {
    // A non-numeric monitor index is rejected during validation, before
    // any window or capture resource could be created.
    let r = build_config(&b"abc".to_vec(), &b"30".to_vec(), false, "Monitor abc".to_string());
    assert_eq!(r.unwrap_err(), StartupConfigError::InvalidMonitorId);
}

#[test]
fn build_config_rejects_bad_fps() {
    let r = build_config(&b"1".to_vec(), &b"fast".to_vec(), false, "Monitor 1".to_string());
    assert_eq!(r.unwrap_err(), StartupConfigError::InvalidFps);
}

#[test]
fn build_config_rejects_zero_fps() {
    let r = build_config(&b"1".to_vec(), &b"0".to_vec(), false, "Monitor 1".to_string());
    assert_eq!(r.unwrap_err(), StartupConfigError::InvalidFps);
}

#[test]
fn build_config_checks_monitor_id_first() {
    let r = build_config(&b"abc".to_vec(), &b"xyz".to_vec(), false, "Monitor abc".to_string());
    assert_eq!(r.unwrap_err(), StartupConfigError::InvalidMonitorId);
}

#[test]
fn startup_error_messages() {
    assert_eq!(
        StartupConfigError::InvalidMonitorId.message(),
        "Monitor ID must be an integer"
    );
    assert_eq!(
        StartupConfigError::InvalidFps.message(),
        "Target frames per second must be integer"
    );
}
