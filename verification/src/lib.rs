//! Core logic of the ResetPing status notifier: settings, polling decisions,
//! transition history, diagnostics log, update checks and telemetry gating.

pub mod control;
pub mod poll;
pub mod runtime;
pub mod schedule;
pub mod settings;
pub mod status;
pub mod telemetry;
pub mod text;
pub mod updates;


pub use control::{
    app_open_report, autostart_failure_report, plan_settings_update, save_failure_report,
    tray_action, HeartbeatStep, SettingsPlan, TrayAction,
};
pub use poll::{PollActions, PollSuccess};
pub use runtime::{
    build_status_line, health_label, is_degraded, resolve_installation_id, test_notification,
    tray_tooltip, AppStateResponse, LogEntry, LogLevel, Notification, PersistentData, RuntimeSnapshot,
    RuntimeState, TransitionEntry, FAILURE_THRESHOLD, LOG_LIMIT, TRANSITIONS_LIMIT,
};
pub use schedule::{
    heartbeat_due, heartbeat_due_every, heartbeat_interval_ms, low_power_mode_active,
    next_poll_delay_secs, now_ms, poll_delay_secs, scheduled_update_check_due, update_check_due,
    DEBUG_HEARTBEAT_INTERVAL_MS, HEARTBEAT_INTERVAL_MS, MAX_JITTER_SECS,
};
pub use settings::{
    default_endpoint_url, default_http_timeout_ms, default_low_power_poll_interval_sec,
    default_poll_interval_sec, default_true, default_update_check_interval_hours,
    sanitize_settings, telemetry_enabled, AppSettings, NotificationPolicy, DEFAULT_ENDPOINT,
};
pub use status::{
    curl_args, curl_timeout_secs, fallback_failure_message, interpret_curl_response,
    interpret_status_response, normalize_state, should_fallback_to_curl, split_curl_output,
    unparsable_body, FetchTransport, NormalizedStatus, StatusApiPayload, APP_USER_AGENT,
};
pub use telemetry::{
    build_channel, error_report, http_backend_label, message_report, should_emit_poll_failure_telemetry,
    telemetry_tags, test_telemetry_event, usage_report, HttpBackend, ReportKind, TelemetryContext,
    TelemetryLevel, TelemetryReport,
};
pub use updates::{
    check_failure_report, check_response, is_outcome_recorded, update_response, updater_preflight,
    updater_public_key, updater_supported_platform, TargetOs, UpdateCheckResponse, UpdateCheckStatus,
    UpdateCheckTrigger, UpdaterOutcome,
};
