use resetping::{
    check_response, default_endpoint_url, default_http_timeout_ms,
    default_low_power_poll_interval_sec, default_poll_interval_sec,
    default_update_check_interval_hours, heartbeat_due, is_degraded, normalize_state,
    sanitize_settings, should_emit_poll_failure_telemetry, update_check_due, update_response,
    AppSettings, NotificationPolicy, RuntimeSnapshot, StatusApiPayload, UpdateCheckStatus,
    UpdaterOutcome, DEFAULT_ENDPOINT, FAILURE_THRESHOLD, HEARTBEAT_INTERVAL_MS,
};

#[test]
fn normalizes_non_no_to_yes() {
    let payload = StatusApiPayload {
        state: "maybe".to_string(),
        configured: true,
        updated_at: Some(123),
        error: None,
    };
    let effective = normalize_state(&payload.state);
    assert_eq!(effective, "yes");
}

#[test]
fn clamps_settings_bounds() {
    let settings = AppSettings {
        poll_interval_sec: 1,
        low_power_poll_interval_sec: 5_000,
        http_timeout_ms: 100,
        notification_policy: NotificationPolicy::Flip,
        notify_initial_state: true,
        launch_at_login: false,
        update_checks_enabled: false,
        update_check_interval_hours: 1_000,
        status_endpoint_url: "".to_string(),
        error_telemetry_enabled: true,
        usage_telemetry_enabled: false,
        legacy_telemetry_enabled: None,
    };

    let sanitized = sanitize_settings(settings);
    assert_eq!(sanitized.poll_interval_sec, 30);
    assert_eq!(sanitized.low_power_poll_interval_sec, 900);
    assert_eq!(sanitized.http_timeout_ms, 1_000);
    assert_eq!(sanitized.update_check_interval_hours, 24 * 30);
    assert_eq!(sanitized.status_endpoint_url, DEFAULT_ENDPOINT);
}

#[test]
fn detects_degraded_health() {
    let mut snapshot = RuntimeSnapshot::default();
    snapshot.consecutive_failures = FAILURE_THRESHOLD;
    assert!(is_degraded(&snapshot));
}

#[test]
fn migrates_legacy_telemetry_toggle() {
    let settings = AppSettings {
        poll_interval_sec: default_poll_interval_sec(),
        low_power_poll_interval_sec: default_low_power_poll_interval_sec(),
        http_timeout_ms: default_http_timeout_ms(),
        notification_policy: NotificationPolicy::Flip,
        notify_initial_state: true,
        launch_at_login: false,
        update_checks_enabled: false,
        update_check_interval_hours: default_update_check_interval_hours(),
        status_endpoint_url: default_endpoint_url(),
        error_telemetry_enabled: true,
        usage_telemetry_enabled: false,
        legacy_telemetry_enabled: Some(false),
    };

    let sanitized = sanitize_settings(settings);
    assert!(!sanitized.error_telemetry_enabled);
    assert!(!sanitized.usage_telemetry_enabled);
    assert!(sanitized.legacy_telemetry_enabled.is_none());
}

#[test]
fn heartbeat_due_logic_respects_interval() {
    assert!(heartbeat_due(None, HEARTBEAT_INTERVAL_MS));
    assert!(!heartbeat_due(Some(1_000), 1_000 + HEARTBEAT_INTERVAL_MS - 1));
    assert!(heartbeat_due(Some(1_000), 1_000 + HEARTBEAT_INTERVAL_MS));
}

#[test]
fn poll_failure_telemetry_thresholds_are_throttled() {
    assert!(should_emit_poll_failure_telemetry(1));
    assert!(!should_emit_poll_failure_telemetry(2));
    assert!(should_emit_poll_failure_telemetry(5));
    assert!(!should_emit_poll_failure_telemetry(6));
    assert!(should_emit_poll_failure_telemetry(20));
    assert!(should_emit_poll_failure_telemetry(100));
    assert!(!should_emit_poll_failure_telemetry(101));
}

#[test]
fn update_check_due_respects_interval() {
    let now = 20_000_000;
    assert!(update_check_due(None, now, 24));
    assert!(!update_check_due(Some(now - (2 * 60 * 60 * 1000)), now, 3));
    assert!(update_check_due(Some(now - (4 * 60 * 60 * 1000)), now, 3));
}

#[test]
fn unsupported_platform_response_shape_is_stable() {
    let response = update_response(
        123,
        UpdateCheckStatus::UnsupportedPlatform,
        None,
        Some("0.1.0".to_string()),
        None,
        false,
        "In-app updater is enabled on macOS only for v1.".to_string(),
    );

    assert_eq!(response.checked_at, 123);
    assert_eq!(response.status, UpdateCheckStatus::UnsupportedPlatform);
    assert!(!response.install_ready);
    assert_eq!(response.current_version.as_deref(), Some("0.1.0"));

    let built = check_response(123, UpdaterOutcome::UnsupportedPlatform, "0.1.0");
    assert_eq!(built.status, response.status);
    assert_eq!(built.message, response.message);
    assert_eq!(built.current_version, response.current_version);
}
