//! Decisions of the user commands and the background loop that are neither
//! polls nor update checks: changing settings and the usage heartbeat.
use vstd::prelude::*;
use vstd::string::*;

use crate::poll::push_line;
use crate::runtime::{line, log_kept, LogLevel, RuntimeState};
use crate::schedule::{heartbeat_due_after, heartbeat_due_every};
use crate::settings::{sanitized, sanitize_settings, AppSettings};
use crate::text::text_eq;
use crate::telemetry::{
    error_report, error_reporting_on, is_error_report, is_usage_report, usage_report,
    usage_reporting_on, TelemetryReport,
};

verus! {

/// What a settings change will do before it is applied.
pub struct SettingsPlan {
    /// The requested settings, sanitized.
    pub settings: AppSettings,
    /// Whether launching at login must be switched.
    pub autostart_changed: bool,
    /// Whether any telemetry is on in the new settings.
    pub telemetry_on: bool,
}

/// Plans a change to `requested` from the current `settings`.
pub fn plan_settings_update(current: &AppSettings, requested: AppSettings) -> (r: SettingsPlan)
    ensures
        r.settings@ == sanitized(requested@),
        r.autostart_changed == (r.settings.launch_at_login != current.launch_at_login),
        r.telemetry_on == (r.settings.error_telemetry_enabled || r.settings.usage_telemetry_enabled),
{
    let settings = sanitize_settings(requested);
    let autostart_changed = settings.launch_at_login != current.launch_at_login;
    let telemetry_on = settings.error_telemetry_enabled || settings.usage_telemetry_enabled;
    SettingsPlan { settings, autostart_changed, telemetry_on }
}

/// Whether `b` is `a` with the settings replaced by `settings` and one line
/// `l` logged.
pub open spec fn settings_replaced(
    a: RuntimeState,
    b: RuntimeState,
    settings: AppSettings,
    l: (Seq<char>, Seq<char>),
) -> bool {
    &&& b.settings == settings
    &&& b.snapshot == a.snapshot
    &&& b.transitions@ == a.transitions@
    &&& b.in_flight == a.in_flight
    &&& b.last_update_check_ms == a.last_update_check_ms
    &&& b.pending_update_version == a.pending_update_version
    &&& b.updater == a.updater
    &&& b.background_notified_update_version == a.background_notified_update_version
    &&& b.installation_id == a.installation_id
    &&& b.last_usage_heartbeat_at_ms == a.last_usage_heartbeat_at_ms
    &&& b.sentry_dsn == a.sentry_dsn
    &&& b.lines() == push_line(a.lines(), l)
    &&& log_kept(a.logs@, b.logs@)
}

pub open spec fn commit_line() -> (Seq<char>, Seq<char>) {
    line(LogLevel::Info, "Settings updated"@)
}

pub open spec fn rollback_line() -> (Seq<char>, Seq<char>) {
    line(LogLevel::Warn, "Settings change rolled back after persistence failure"@)
}

impl RuntimeState {
    /// Applies new settings and logs it; the settings they replace are
    /// returned, to roll back to if they cannot be saved.
    pub fn commit_settings(&mut self, settings: AppSettings) -> (previous: AppSettings)
        ensures
            previous == old(self).settings,
            settings_replaced(*old(self), *final(self), settings, commit_line()),
    {
        let mut previous = settings;
        std::mem::swap(&mut previous, &mut self.settings);
        self.push_log(LogLevel::Info, String::from_str("Settings updated"));
        previous
    }

    /// Restores the settings a failed save replaced, and logs it.
    pub fn rollback_settings(&mut self, previous: AppSettings)
        ensures
            settings_replaced(*old(self), *final(self), previous, rollback_line()),
    {
        self.settings = previous;
        self.push_log(
            LogLevel::Warn,
            String::from_str("Settings change rolled back after persistence failure"),
        );
    }
}

/// The error event for a failed switch of launching at login, judged by the
/// new settings.
pub fn autostart_failure_report(settings: &AppSettings, client_ready: bool, error: &str) -> (r: Option<
    TelemetryReport,
>)
    ensures
        r is Some <==> error_reporting_on(*settings, client_ready),
        r matches Some(rep) ==> is_error_report(
            rep,
            "autostart"@,
            "update_failed"@,
            "Autostart update failed: "@ + error@,
        ),
{
    let mut m = String::from_str("Autostart update failed: ");
    m.append(error);
    error_report(settings, client_ready, "autostart", "update_failed", m.as_str())
}

/// The error event for settings that could not be saved, judged by the
/// settings in force after the rollback.
pub fn save_failure_report(settings: &AppSettings, client_ready: bool, error: &str) -> (r: Option<
    TelemetryReport,
>)
    ensures
        r is Some <==> error_reporting_on(*settings, client_ready),
        r matches Some(rep) ==> is_error_report(
            rep,
            "state_store"@,
            "save_settings_failed"@,
            "Failed to save settings: "@ + error@,
        ),
{
    let mut m = String::from_str("Failed to save settings: ");
    m.append(error);
    error_report(settings, client_ready, "state_store", "save_settings_failed", m.as_str())
}

/// The usage event sent when the application opens.
pub fn app_open_report(settings: &AppSettings, client_ready: bool) -> (r: Option<TelemetryReport>)
    ensures
        r is Some <==> usage_reporting_on(*settings, client_ready),
        r matches Some(rep) ==> is_usage_report(
            rep,
            "app_open"@,
            "app_setup"@,
            "ResetPing app open event"@,
        ),
{
    usage_report(settings, client_ready, "app_open", "app_setup", "ResetPing app open event")
}

/// What the heartbeat step did.
pub struct HeartbeatStep {
    /// Whether a heartbeat was due and recorded (the state is then saved).
    pub emitted: bool,
    pub usage_report: Option<TelemetryReport>,
}

impl RuntimeState {
    /// Records a usage heartbeat at `now` when one is due at the cadence
    /// `interval_ms`: its time is kept and it is logged, and a usage event is
    /// described if usage telemetry may be sent. Otherwise nothing changes.
    pub fn record_usage_heartbeat(&mut self, now: u64, interval_ms: u64, client_ready: bool) -> (r:
        HeartbeatStep)
        ensures
            r.emitted == heartbeat_due_after(old(self).last_usage_heartbeat_at_ms, now, interval_ms),
            !r.emitted ==> *final(self) == *old(self) && r.usage_report is None,
            r.emitted ==> {
                &&& final(self).last_usage_heartbeat_at_ms == Some(now)
                &&& log_kept(old(self).logs@, final(self).logs@)
                &&& final(self).settings == old(self).settings
                &&& final(self).snapshot == old(self).snapshot
                &&& final(self).transitions@ == old(self).transitions@
                &&& final(self).in_flight == old(self).in_flight
                &&& final(self).last_update_check_ms == old(self).last_update_check_ms
                &&& final(self).pending_update_version == old(self).pending_update_version
                &&& final(self).updater == old(self).updater
                &&& final(self).background_notified_update_version
                    == old(self).background_notified_update_version
                &&& final(self).installation_id == old(self).installation_id
                &&& final(self).sentry_dsn == old(self).sentry_dsn
                &&& final(self).lines() == push_line(
                    old(self).lines(),
                    line(LogLevel::Info, "Usage heartbeat emitted"@),
                )
                &&& (r.usage_report is Some <==> usage_reporting_on(old(self).settings, client_ready))
                &&& (r.usage_report matches Some(rep) ==> is_usage_report(
                    rep,
                    "heartbeat"@,
                    "poll_engine"@,
                    "Usage heartbeat emitted"@,
                ))
            },
    {
        if !heartbeat_due_every(self.last_usage_heartbeat_at_ms, now, interval_ms) {
            return HeartbeatStep { emitted: false, usage_report: None };
        }
        let report = usage_report(
            &self.settings,
            client_ready,
            "heartbeat",
            "poll_engine",
            "Usage heartbeat emitted",
        );
        self.last_usage_heartbeat_at_ms = Some(now);
        self.push_log(LogLevel::Info, String::from_str("Usage heartbeat emitted"));
        HeartbeatStep { emitted: true, usage_report: report }
    }
}

/// What a tray menu entry does.
#[derive(Debug, Clone, Copy, PartialEq, Eq, Structural)]
pub enum TrayAction {
    OpenSettings,
    ForceRefresh,
    TestNotification,
    Quit,
}

pub open spec fn tray_action_of(id: Seq<char>) -> Option<TrayAction> {
    if id == "open-settings"@ {
        Some(TrayAction::OpenSettings)
    } else if id == "force-refresh"@ {
        Some(TrayAction::ForceRefresh)
    } else if id == "test-notification"@ {
        Some(TrayAction::TestNotification)
    } else if id == "quit"@ {
        Some(TrayAction::Quit)
    } else {
        None
    }
}

/// The action of the tray menu entry with id `id`; other ids do nothing.
pub fn tray_action(id: &str) -> (r: Option<TrayAction>)
    ensures
        r == tray_action_of(id@),
{
    if text_eq(id, "open-settings") {
        Some(TrayAction::OpenSettings)
    } else if text_eq(id, "force-refresh") {
        Some(TrayAction::ForceRefresh)
    } else if text_eq(id, "test-notification") {
        Some(TrayAction::TestNotification)
    } else if text_eq(id, "quit") {
        Some(TrayAction::Quit)
    } else {
        None
    }
}

/// Committing settings and then rolling back to what the commit returned
/// restores the settings in force before, with both steps logged.
pub proof fn lemma_commit_then_rollback(
    s0: RuntimeState,
    s1: RuntimeState,
    s2: RuntimeState,
    new_settings: AppSettings,
    previous: AppSettings,
)
    requires
        previous == s0.settings,
        settings_replaced(s0, s1, new_settings, commit_line()),
        settings_replaced(s1, s2, previous, rollback_line()),
    ensures
        s2.settings == s0.settings,
        s2.snapshot == s0.snapshot,
        s2.transitions@ == s0.transitions@,
        s2.lines() == push_line(push_line(s0.lines(), commit_line()), rollback_line()),
{
}

} // verus!
