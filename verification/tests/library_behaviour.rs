use resetping::{
    app_open_report, autostart_failure_report, build_channel, build_status_line, check_failure_report,
    check_response, curl_args, curl_timeout_secs, error_report, fallback_failure_message,
    health_label, heartbeat_due_every, heartbeat_interval_ms, http_backend_label,
    interpret_curl_response, interpret_status_response, is_outcome_recorded, low_power_mode_active,
    next_poll_delay_secs, normalize_state, now_ms, plan_settings_update, poll_delay_secs,
    resolve_installation_id, sanitize_settings, save_failure_report, scheduled_update_check_due,
    should_fallback_to_curl, split_curl_output, telemetry_enabled, telemetry_tags,
    test_notification, test_telemetry_event, tray_action, tray_tooltip, unparsable_body,
    update_check_due, updater_preflight, updater_public_key, updater_supported_platform,
    usage_report, AppSettings, FetchTransport, HttpBackend, NormalizedStatus, NotificationPolicy,
    PersistentData, ReportKind, RuntimeSnapshot, RuntimeState, StatusApiPayload, TargetOs,
    TelemetryContext, TelemetryLevel, TrayAction, UpdateCheckStatus, UpdateCheckTrigger,
    UpdaterOutcome, APP_USER_AGENT, DEBUG_HEARTBEAT_INTERVAL_MS, DEFAULT_ENDPOINT,
    HEARTBEAT_INTERVAL_MS, LOG_LIMIT, MAX_JITTER_SECS, TRANSITIONS_LIMIT,
};

fn settings() -> AppSettings {
    AppSettings::default()
}

fn payload(state: &str, error: Option<&str>) -> StatusApiPayload {
    StatusApiPayload {
        state: state.to_string(),
        configured: true,
        updated_at: Some(42),
        error: error.map(|e| e.to_string()),
    }
}

fn status(state: &str, at: u64) -> NormalizedStatus {
    NormalizedStatus {
        effective_state: state.to_string(),
        source_timestamp_ms: Some(at - 1),
        fetched_at_ms: at,
        configured: true,
        transport: FetchTransport::Reqwest,
    }
}

fn fresh_state(settings: AppSettings) -> RuntimeState {
    let mut data = PersistentData::default();
    data.settings = settings;
    data.installation_id = Some("install-1".to_string());
    RuntimeState::start(data, None, HttpBackend::Rustls)
}

fn messages(state: &RuntimeState) -> Vec<String> {
    state.recent_logs().iter().map(|e| e.message.clone()).collect()
}

/// Runs a whole successful poll and returns the notification body, if any.
fn poll_ok(state: &mut RuntimeState, current: &str, at: u64) -> Option<String> {
    assert!(state.begin_poll("scheduled"));
    let st = status(current, at);
    let step = state.record_poll_success(&st, false);
    let actions = state.conclude_poll_success(step.previous_state, &st, None, false);
    actions.notification.map(|n| n.body)
}

#[test]
fn default_settings_match_documentation() {
    let s = settings();
    assert_eq!(s.poll_interval_sec, 60);
    assert_eq!(s.low_power_poll_interval_sec, 300);
    assert_eq!(s.http_timeout_ms, 8_000);
    assert_eq!(s.notification_policy, NotificationPolicy::Flip);
    assert!(s.notify_initial_state);
    assert!(!s.launch_at_login);
    assert!(!s.update_checks_enabled);
    assert_eq!(s.update_check_interval_hours, 24);
    assert_eq!(s.status_endpoint_url, DEFAULT_ENDPOINT);
    assert!(s.error_telemetry_enabled);
    assert!(!s.usage_telemetry_enabled);
    assert!(s.legacy_telemetry_enabled.is_none());
}

#[test]
fn sanitize_keeps_values_within_bounds_and_is_idempotent() {
    let mut s = settings();
    s.poll_interval_sec = 120;
    s.http_timeout_ms = 30_000;
    s.status_endpoint_url = "  http://127.0.0.1:8787/api/status ".to_string();
    let once = sanitize_settings(s);
    assert_eq!(once.poll_interval_sec, 120);
    assert_eq!(once.http_timeout_ms, 30_000);
    assert_eq!(once.status_endpoint_url, "  http://127.0.0.1:8787/api/status ");
    let twice = sanitize_settings(once.clone());
    assert_eq!(twice.poll_interval_sec, once.poll_interval_sec);
    assert_eq!(twice.low_power_poll_interval_sec, once.low_power_poll_interval_sec);
    assert_eq!(twice.http_timeout_ms, once.http_timeout_ms);
    assert_eq!(twice.update_check_interval_hours, once.update_check_interval_hours);
    assert_eq!(twice.status_endpoint_url, once.status_endpoint_url);
}

#[test]
fn sanitize_replaces_blank_endpoint_and_clamps_upper_and_lower() {
    let mut s = settings();
    s.status_endpoint_url = " \t\u{a0}\u{3000}\n".to_string();
    s.poll_interval_sec = 10_000;
    s.low_power_poll_interval_sec = 0;
    s.http_timeout_ms = u64::MAX;
    s.update_check_interval_hours = 0;
    s.legacy_telemetry_enabled = Some(true);
    s.error_telemetry_enabled = false;
    let r = sanitize_settings(s);
    assert_eq!(r.status_endpoint_url, DEFAULT_ENDPOINT);
    assert_eq!(r.poll_interval_sec, 900);
    assert_eq!(r.low_power_poll_interval_sec, 60);
    assert_eq!(r.http_timeout_ms, 30_000);
    assert_eq!(r.update_check_interval_hours, 1);
    assert!(r.error_telemetry_enabled && r.usage_telemetry_enabled);
    assert!(r.legacy_telemetry_enabled.is_none());
    assert!(telemetry_enabled(&r));
}

#[test]
fn normalizes_states() {
    assert_eq!(normalize_state("no"), "no");
    assert_eq!(normalize_state("yes"), "yes");
    assert_eq!(normalize_state("No"), "yes");
    assert_eq!(normalize_state(""), "yes");
}

#[test]
fn interprets_http_replies() {
    let ok = interpret_status_response(200, "200 OK", payload("no", None), 77).unwrap();
    assert_eq!(ok.effective_state, "no");
    assert_eq!(ok.source_timestamp_ms, Some(42));
    assert_eq!(ok.fetched_at_ms, 77);
    assert!(ok.configured);
    assert_eq!(ok.transport, FetchTransport::Reqwest);
    assert!(interpret_status_response(299, "299", payload("x", None), 1).is_ok());
    let err = interpret_status_response(300, "300 Multiple Choices", payload("x", None), 1);
    assert_eq!(
        err.unwrap_err(),
        "request failed with status 300 Multiple Choices; upstream_error=no upstream error message"
    );
    let err = interpret_status_response(503, "503 Service Unavailable", payload("x", Some("down")), 1);
    assert_eq!(
        err.unwrap_err(),
        "request failed with status 503 Service Unavailable; upstream_error=down"
    );
}

#[test]
fn describes_unparsable_bodies() {
    assert_eq!(unparsable_body(200, "200 OK", "EOF", "{"), "invalid response body: EOF");
    assert_eq!(
        unparsable_body(502, "502 Bad Gateway", "expected value", "<html>"),
        "request failed with status 502 Bad Gateway and unparsable body: expected value; body=<html>"
    );
}

#[test]
fn falls_back_to_curl_only_on_bad_file_descriptor() {
    assert!(should_fallback_to_curl("request failed: Bad File Descriptor (os error 9)"));
    assert!(should_fallback_to_curl("BAD FILE DESCRIPTOR"));
    assert!(!should_fallback_to_curl("request failed: operation timed out"));
    assert_eq!(
        fallback_failure_message("request failed: x", "boom"),
        "request failed: x; curl fallback failed: boom"
    );
}

#[test]
fn curl_timeout_rounds_up_to_whole_seconds() {
    assert_eq!(curl_timeout_secs(8_000), 8);
    assert_eq!(curl_timeout_secs(8_001), 9);
    assert_eq!(curl_timeout_secs(999), 1);
    assert_eq!(curl_timeout_secs(0), 1);
    assert_eq!(curl_timeout_secs(u64::MAX), u64::MAX / 1000 + 1);
}

#[test]
fn builds_curl_arguments() {
    let args = curl_args(8, "http://example.test/api/status");
    let expected = vec![
        "--silent",
        "--show-error",
        "--max-time",
        "8",
        "--connect-timeout",
        "8",
        "--header",
        "cache-control: no-store",
        "--user-agent",
        APP_USER_AGENT,
        "--write-out",
        "\n__HTTP_STATUS__:%{http_code}",
        "http://example.test/api/status",
    ];
    assert_eq!(args, expected);
    assert_eq!(curl_args(1234567, "e")[3], "1234567");
}

#[test]
fn splits_curl_output_at_last_trailer() {
    let (body, code) = split_curl_output("{\"state\":\"no\"}\n__HTTP_STATUS__:200").unwrap();
    assert_eq!(body, "{\"state\":\"no\"}");
    assert_eq!(code, 200);
    let (body, code) =
        split_curl_output("a\n__HTTP_STATUS__:1\n__HTTP_STATUS__: 404 \n").unwrap();
    assert_eq!(body, "a\n__HTTP_STATUS__:1");
    assert_eq!(code, 404);
    let (_, code) = split_curl_output("\n__HTTP_STATUS__:+7").unwrap();
    assert_eq!(code, 7);
    assert_eq!(
        split_curl_output("no trailer").unwrap_err(),
        "curl fallback missing HTTP status trailer"
    );
    for text in ["", "abc", "70000", "-1", "+", "1 2"] {
        let expected = format!(
            "curl fallback invalid HTTP status trailer: {}",
            text.trim().parse::<u16>().unwrap_err()
        );
        let out = format!("body\n__HTTP_STATUS__:{text}");
        assert_eq!(split_curl_output(&out).unwrap_err(), expected);
    }
}

#[test]
fn interprets_curl_replies() {
    let ok = interpret_curl_response(399, payload("yes", None), 5).unwrap();
    assert_eq!(ok.transport, FetchTransport::CurlFallback);
    assert_eq!(ok.effective_state, "yes");
    assert_eq!(
        interpret_curl_response(400, payload("yes", Some("bad")), 5).unwrap_err(),
        "request failed with status 400; upstream_error=bad"
    );
}

#[test]
fn heartbeat_and_update_schedules() {
    assert_eq!(heartbeat_interval_ms(true), DEBUG_HEARTBEAT_INTERVAL_MS);
    assert_eq!(heartbeat_interval_ms(false), HEARTBEAT_INTERVAL_MS);
    assert!(!heartbeat_due_every(Some(10), 5, 1));
    assert!(heartbeat_due_every(Some(10), 11, 1));
    assert!(!update_check_due(Some(100), 50, 1));
    assert!(!update_check_due(Some(0), u64::MAX - 1, u64::MAX));
    assert!(update_check_due(Some(0), u64::MAX, u64::MAX));
    let mut s = settings();
    assert!(!scheduled_update_check_due(&s, None, 0));
    s.update_checks_enabled = true;
    assert!(scheduled_update_check_due(&s, None, 0));
    assert!(!scheduled_update_check_due(&s, Some(0), 3_600_000 * 24 - 1));
}

#[test]
fn poll_delay_uses_low_power_interval_and_jitter() {
    let mut s = settings();
    assert_eq!(poll_delay_secs(&s, false, 3), 63);
    assert_eq!(poll_delay_secs(&s, true, 0), 300);
    s.poll_interval_sec = u64::MAX;
    assert_eq!(poll_delay_secs(&s, false, 5), u64::MAX);
    let s = settings();
    for _ in 0..50 {
        let d = next_poll_delay_secs(&s, false);
        assert!(d >= 60 && d <= 60 + MAX_JITTER_SECS);
    }
}

#[test]
fn clock_reads_after_2020() {
    assert!(now_ms() > 1_577_836_800_000);
}

#[test]
fn detects_low_power_mode() {
    assert!(low_power_mode_active(Some("Now drawing from 'Battery Power'\n Low Power Mode: 1")));
    assert!(!low_power_mode_active(Some("low power mode: 0")));
    assert!(!low_power_mode_active(None));
}

#[test]
fn labels_build_and_backend() {
    assert_eq!(build_channel(true), "debug");
    assert_eq!(build_channel(false), "release");
    assert_eq!(http_backend_label(HttpBackend::NativeTls), "native-tls");
    assert_eq!(http_backend_label(HttpBackend::Rustls), "rustls");
}

#[test]
fn telemetry_follows_its_toggles() {
    let mut s = settings();
    assert!(error_report(&s, true, "c", "k", "m").is_some());
    assert!(error_report(&s, false, "c", "k", "m").is_none());
    assert!(usage_report(&s, true, "e", "c", "m").is_none());
    s.error_telemetry_enabled = false;
    s.usage_telemetry_enabled = true;
    assert!(error_report(&s, true, "c", "k", "m").is_none());
    assert!(app_open_report(&s, true).is_some());
    assert!(app_open_report(&s, false).is_none());
}

#[test]
fn tags_events_in_order() {
    let ctx = TelemetryContext {
        platform: "macos".to_string(),
        app_version: "0.1.4".to_string(),
        build_channel: "release".to_string(),
        installation_id: "id".to_string(),
    };
    let err = error_report(&settings(), true, "updater", "check_failed", "x").unwrap();
    let tags: Vec<(String, String)> = telemetry_tags(&err, &ctx);
    let keys: Vec<&str> = tags.iter().map(|t| t.0.as_str()).collect();
    assert_eq!(
        keys,
        vec!["event_type", "component", "error_kind", "platform", "app_version", "build_channel", "installation_id"]
    );
    assert_eq!(tags[0].1, "error");
    assert_eq!(tags[2].1, "check_failed");
    let mut s = settings();
    s.usage_telemetry_enabled = true;
    let usage = usage_report(&s, true, "heartbeat", "poll_engine", "m").unwrap();
    let tags = telemetry_tags(&usage, &ctx);
    assert_eq!(tags.len(), 6);
    assert_eq!(tags[0], ("event_type".to_string(), "heartbeat".to_string()));
    assert_eq!(tags[5], ("installation_id".to_string(), "id".to_string()));
}

#[test]
fn manual_telemetry_test_prechecks() {
    let mut s = settings();
    let ok = test_telemetry_event(&s, true).unwrap();
    assert!(matches!(ok.kind, ReportKind::ErrorEvent { ref error_kind } if error_kind == "manual_telemetry_test"));
    assert_eq!(ok.component, "ui");
    assert_eq!(
        test_telemetry_event(&s, false).unwrap_err(),
        "Sentry is not initialized. Set SENTRY_DSN and restart app."
    );
    s.error_telemetry_enabled = false;
    assert_eq!(
        test_telemetry_event(&s, true).unwrap_err(),
        "Error telemetry is disabled in settings."
    );
}

#[test]
fn startup_state_logs_and_keeps_installation_id() {
    let state = fresh_state(settings());
    assert_eq!(messages(&state), vec!["ResetPing started", "HTTP backend selected: rustls"]);
    assert_eq!(state.installation_id, "install-1");
    assert!(!state.in_flight);
    let generated = resolve_installation_id(None);
    let chars: Vec<char> = generated.chars().collect();
    assert_eq!(chars.len(), 36);
    for (i, c) in chars.iter().enumerate() {
        if [8, 13, 18, 23].contains(&i) {
            assert_eq!(*c, '-');
        } else {
            assert!(c.is_ascii_digit() || ('a'..='f').contains(c));
        }
    }
    assert_eq!(chars[14], '4');
    assert_ne!(resolve_installation_id(None), generated);
}

#[test]
fn diagnostics_log_keeps_newest_lines() {
    let mut state = fresh_state(settings());
    for i in 0..250 {
        state.push_log(resetping::LogLevel::Warn, format!("line {i}"));
    }
    let logs = state.recent_logs();
    assert_eq!(logs.len(), LOG_LIMIT);
    assert_eq!(logs[0].message, "line 50");
    assert_eq!(logs[LOG_LIMIT - 1].message, "line 249");
    assert_eq!(logs[0].level, "warn");
}

#[test]
fn poll_sequence_flip_policy_notifies_every_change() {
    let mut state = fresh_state(settings());
    assert_eq!(
        poll_ok(&mut state, "no", 1_000),
        Some("Current Codex reset status is no.".to_string())
    );
    assert_eq!(
        poll_ok(&mut state, "yes", 2_000),
        Some("Codex reset status changed from no to yes.".to_string())
    );
    assert_eq!(poll_ok(&mut state, "yes", 3_000), None);
    assert_eq!(
        poll_ok(&mut state, "no", 4_000),
        Some("Codex reset status changed from yes to no.".to_string())
    );
    let transitions = state.app_state().transitions;
    assert_eq!(transitions.len(), 2);
    assert_eq!(transitions[0].from, "no");
    assert_eq!(transitions[0].to, "yes");
    assert_eq!(transitions[0].detected_at, 2_000);
    assert_eq!(transitions[0].source_updated_at, Some(1_999));
    assert_eq!(transitions[1].to, "no");
    let logs = messages(&state);
    assert!(logs.contains(&"State transition detected: no -> yes (configured=true)".to_string()));
    assert!(logs.contains(&"Initial state detected: no".to_string()));
    assert!(logs.contains(&"Polling status (scheduled) from https://hascodexratelimitreset.today/api/status".to_string()));
}

#[test]
fn poll_sequence_no_to_yes_policy_skips_changes_to_no() {
    let mut s = settings();
    s.notification_policy = NotificationPolicy::NoToYes;
    s.notify_initial_state = false;
    let mut state = fresh_state(s);
    assert_eq!(poll_ok(&mut state, "no", 1), None);
    assert!(poll_ok(&mut state, "yes", 2).is_some());
    assert_eq!(poll_ok(&mut state, "yes", 3), None);
    assert_eq!(poll_ok(&mut state, "no", 4), None);
    assert_eq!(state.app_state().transitions.len(), 2);
}

#[test]
fn transition_history_is_capped() {
    let mut state = fresh_state(settings());
    for i in 0..150u64 {
        let s = if i % 2 == 0 { "yes" } else { "no" };
        poll_ok(&mut state, s, 10 + i);
    }
    let transitions = state.persistent_data().transitions;
    assert_eq!(transitions.len(), TRANSITIONS_LIMIT);
    assert_eq!(transitions[TRANSITIONS_LIMIT - 1].detected_at, 159);
    assert_eq!(transitions[0].detected_at, 60);
}

#[test]
fn poll_in_flight_is_not_restarted() {
    let mut state = fresh_state(settings());
    assert!(state.begin_poll("manual"));
    let lines = state.recent_logs().len();
    assert!(!state.begin_poll("manual"));
    assert_eq!(state.recent_logs().len(), lines);
    let _ = state.record_poll_failure("x".to_string(), false);
    assert!(!state.in_flight);
    assert!(state.begin_poll("manual"));
}

#[test]
fn failure_streak_degrades_and_recovers() {
    let mut state = fresh_state(settings());
    let mut reported = vec![];
    for n in 1..=6u32 {
        assert!(state.begin_poll("scheduled"));
        let report = state.record_poll_failure(format!("err {n}"), true);
        if let Some(r) = &report {
            reported.push(n);
            assert_eq!(r.message, format!("Polling failed (consecutive={n}): err {n}"));
            assert!(matches!(r.kind, ReportKind::Message { level: TelemetryLevel::Error }));
        }
        state.conclude_poll_failure(&format!("err {n}"), report.map(|_| format!("id{n}")));
        assert_eq!(state.snapshot.consecutive_failures, n);
        assert_eq!(health_label(&state.snapshot), if n >= 5 { "degraded" } else { "healthy" });
    }
    assert_eq!(reported, vec![1, 5]);
    let logs = messages(&state);
    assert!(logs.contains(&"Telemetry error event sent: id1".to_string()));
    assert!(logs.contains(&"Polling failed: err 5".to_string()));
    assert_eq!(
        logs.iter().filter(|m| *m == "Endpoint health degraded after 5 consecutive failures").count(),
        1
    );
    assert_eq!(state.snapshot.last_error_summary.as_deref(), Some("err 6"));

    assert!(state.begin_poll("scheduled"));
    let st = status("yes", 99);
    let step = state.record_poll_success(&st, true);
    assert_eq!(step.previous_failures, 6);
    assert_eq!(
        step.recovery_report.as_ref().unwrap().message,
        "Polling recovered after 6 consecutive failures"
    );
    state.conclude_poll_success(step.previous_state, &st, Some("rid".to_string()), true);
    assert_eq!(state.snapshot.consecutive_failures, 0);
    assert!(state.snapshot.last_error_summary.is_none());
    assert_eq!(health_label(&state.snapshot), "healthy");
    assert!(messages(&state).contains(&"Telemetry recovery event sent: rid".to_string()));
}

#[test]
fn failure_count_saturates() {
    let mut state = fresh_state(settings());
    state.snapshot.consecutive_failures = u32::MAX;
    let _ = state.record_poll_failure("x".to_string(), true);
    assert_eq!(state.snapshot.consecutive_failures, u32::MAX);
}

#[test]
fn curl_success_is_logged_as_warning() {
    let mut state = fresh_state(settings());
    assert!(state.begin_poll("startup"));
    let mut st = status("no", 5);
    st.transport = FetchTransport::CurlFallback;
    state.record_poll_success(&st, false);
    let last = state.recent_logs().pop().unwrap();
    assert_eq!(last.level, "warn");
    assert_eq!(last.message, "Polling succeeded via curl fallback (reqwest connect failed)");
}

#[test]
fn persist_failure_is_logged_and_reported() {
    let mut state = fresh_state(settings());
    let report = state.record_persist_failure("disk full", true).unwrap();
    assert_eq!(report.message, "State persistence failed after poll: disk full");
    assert_eq!(messages(&state).last().unwrap(), "Failed to persist state: disk full");
}

#[test]
fn status_texts_for_tray_and_test_notification() {
    let mut snap = RuntimeSnapshot::default();
    assert_eq!(build_status_line(&snap), "State: unknown | Health: healthy | Last success: never");
    snap.last_known_state = Some("yes".to_string());
    snap.last_success_at = Some(1_700_000_000_123);
    snap.consecutive_failures = 7;
    assert_eq!(
        build_status_line(&snap),
        "State: yes | Health: degraded | Last success: 1700000000123"
    );
    assert_eq!(
        tray_tooltip(&snap),
        "ResetPing\nStatus: YES\nLast success: 1700000000123\nHealth: degraded"
    );
    let n = test_notification(&snap);
    assert_eq!(n.title, "ResetPing: notification test");
    assert_eq!(
        n.body,
        "Notifications are working. State: yes | Health: degraded | Last success: 1700000000123"
    );
}

#[test]
fn update_check_preflight_and_responses() {
    assert!(updater_supported_platform(TargetOs::MacOs));
    assert!(!updater_supported_platform(TargetOs::Linux));
    assert_eq!(updater_public_key(Some("  ")), None);
    assert_eq!(updater_public_key(Some("key")), Some("key"));
    assert_eq!(updater_public_key(None), None);
    assert!(matches!(updater_preflight(TargetOs::Windows, Some("k")), Err(UpdaterOutcome::UnsupportedPlatform)));
    assert!(matches!(updater_preflight(TargetOs::MacOs, Some(" ")), Err(UpdaterOutcome::MissingPublicKey)));
    assert!(matches!(updater_preflight(TargetOs::MacOs, Some("k")), Ok("k")));

    let r = check_response(9, UpdaterOutcome::CheckFailed("offline".to_string()), "0.1.4");
    assert_eq!(r.status, UpdateCheckStatus::CheckFailed);
    assert_eq!(r.message, "Update check failed: offline");
    let r = check_response(9, UpdaterOutcome::MissingPublicKey, "0.1.4");
    assert_eq!(r.message, "Updater public key is not configured.");
    let r = check_response(9, UpdaterOutcome::UpToDate, "0.1.4");
    assert_eq!(r.status, UpdateCheckStatus::UpToDate);
    assert_eq!(r.current_version.as_deref(), Some("0.1.4"));
    let r = check_response(
        9,
        UpdaterOutcome::Available {
            version: "0.2.0".to_string(),
            current_version: "0.1.4".to_string(),
            notes: Some("n".to_string()),
        },
        "x",
    );
    assert_eq!(r.status, UpdateCheckStatus::UpdateAvailable);
    assert_eq!(r.version.as_deref(), Some("0.2.0"));
    assert!(r.install_ready);
    assert!(!is_outcome_recorded(&UpdaterOutcome::InvalidEndpoint("bad".to_string())));
    assert!(is_outcome_recorded(&UpdaterOutcome::UpToDate));
    let s = settings();
    let rep = check_failure_report(&s, true, &UpdaterOutcome::SetupFailed("no key".to_string())).unwrap();
    assert_eq!(rep.message, "Updater initialization failed: no key");
    assert!(check_failure_report(&s, true, &UpdaterOutcome::UpToDate).is_none());
}

fn available(version: &str) -> resetping::UpdateCheckResponse {
    check_response(
        1,
        UpdaterOutcome::Available {
            version: version.to_string(),
            current_version: "0.1.4".to_string(),
            notes: None,
        },
        "0.1.4",
    )
}

#[test]
fn background_update_notifies_each_version_once() {
    let mut state = fresh_state(settings());
    let usage = state.begin_update_check(UpdateCheckTrigger::Scheduled, 500, true);
    assert!(usage.is_none());
    assert_eq!(state.last_update_check_ms, Some(500));
    let n = state.finish_update_check(UpdateCheckTrigger::Scheduled, available("0.2.0")).unwrap();
    assert_eq!(n.body, "Version 0.2.0 is available. Open Settings to install.");
    assert_eq!(state.pending_update_version.as_deref(), Some("0.2.0"));
    assert!(state.finish_update_check(UpdateCheckTrigger::Scheduled, available("0.2.0")).is_none());
    assert!(state.finish_update_check(UpdateCheckTrigger::Manual, available("0.3.0")).is_none());
    assert!(state.finish_update_check(UpdateCheckTrigger::Scheduled, available("0.3.0")).is_some());
    let failed = check_response(2, UpdaterOutcome::CheckFailed("x".to_string()), "0.1.4");
    assert!(state.finish_update_check(UpdateCheckTrigger::Scheduled, failed).is_none());
    assert!(state.pending_update_version.is_none());
    assert!(state.background_notified_update_version.is_none());
    let last = state.recent_logs().pop().unwrap();
    assert_eq!(last.level, "error");
    assert_eq!(state.updater.as_ref().unwrap().status, UpdateCheckStatus::CheckFailed);
}

#[test]
fn installing_updates() {
    let mut state = fresh_state(settings());
    assert_eq!(
        state.begin_install(false).unwrap_err(),
        "In-app updater is enabled on macOS only for v1."
    );
    assert_eq!(
        state.begin_install(true).unwrap_err(),
        "No pending update is ready to install. Run Check Updates first."
    );
    state.finish_update_check(UpdateCheckTrigger::Manual, available("0.2.0"));
    let (version, install_settings) = state.begin_install(true).unwrap();
    assert_eq!(version, "0.2.0");
    assert!(install_settings.error_telemetry_enabled);
    assert!(state.pending_update_version.is_none());
    assert_eq!(messages(&state).last().unwrap(), "Installing update 0.2.0...");
    // Error telemetry switched off during the download does not stop the
    // report: the settings in force when the installation started decide.
    state.settings.error_telemetry_enabled = false;
    let (msg, report) =
        state.install_failed("signature mismatch", 77, "0.1.4", &install_settings, true);
    assert_eq!(msg, "Update install failed: signature mismatch");
    assert_eq!(report.unwrap().component, "updater");
    assert_eq!(state.updater.as_ref().unwrap().checked_at, 77);
    let (_, none) = state.install_failed("again", 78, "0.1.4", &state.settings.clone(), true);
    assert!(none.is_none());
    state.install_succeeded(88, "0.1.4");
    let u = state.updater.as_ref().unwrap();
    assert_eq!(u.status, UpdateCheckStatus::UpToDate);
    assert_eq!(u.message, "Update installed successfully. Restarting...");
}

#[test]
fn settings_update_commit_and_rollback() {
    let mut state = fresh_state(settings());
    let mut requested = settings();
    requested.launch_at_login = true;
    requested.poll_interval_sec = 5;
    let plan = plan_settings_update(&state.settings, requested);
    assert!(plan.autostart_changed);
    assert!(plan.telemetry_on);
    assert_eq!(plan.settings.poll_interval_sec, 30);
    let previous = state.commit_settings(plan.settings.clone());
    assert_eq!(state.settings.poll_interval_sec, 30);
    assert_eq!(previous.poll_interval_sec, 60);
    state.rollback_settings(previous);
    assert_eq!(state.settings.poll_interval_sec, 60);
    assert!(!state.settings.launch_at_login);
    let logs = messages(&state);
    assert_eq!(&logs[logs.len() - 2..], ["Settings updated", "Settings change rolled back after persistence failure"]);
    let rep = autostart_failure_report(&state.settings, true, "denied").unwrap();
    assert_eq!(rep.message, "Autostart update failed: denied");
    let rep = save_failure_report(&state.settings, true, "read-only").unwrap();
    assert_eq!(rep.message, "Failed to save settings: read-only");
}

#[test]
fn heartbeat_is_recorded_when_due() {
    let mut s = settings();
    s.usage_telemetry_enabled = true;
    let mut state = fresh_state(s);
    let step = state.record_usage_heartbeat(1_000, 600_000, true);
    assert!(step.emitted);
    assert_eq!(step.usage_report.unwrap().event_type, "heartbeat");
    assert_eq!(state.last_usage_heartbeat_at_ms, Some(1_000));
    let step = state.record_usage_heartbeat(2_000, 600_000, true);
    assert!(!step.emitted && step.usage_report.is_none());
    assert!(state.record_usage_heartbeat(601_000, 600_000, false).emitted);
}

#[test]
fn tray_menu_routing() {
    assert_eq!(tray_action("open-settings"), Some(TrayAction::OpenSettings));
    assert_eq!(tray_action("force-refresh"), Some(TrayAction::ForceRefresh));
    assert_eq!(tray_action("test-notification"), Some(TrayAction::TestNotification));
    assert_eq!(tray_action("quit"), Some(TrayAction::Quit));
    assert_eq!(tray_action("other"), None);
}

#[test]
fn app_state_reflects_runtime() {
    let mut state = fresh_state(settings());
    state.sentry_dsn = Some("dsn".to_string());
    let view = state.app_state();
    assert_eq!(view.health, "healthy");
    assert_eq!(view.installation_id, "install-1");
    assert_eq!(view.frontend_telemetry_dsn.as_deref(), Some("dsn"));
    assert_eq!(view.logs.len(), 2);
    let saved = state.persistent_data();
    assert_eq!(saved.installation_id.as_deref(), Some("install-1"));
}
