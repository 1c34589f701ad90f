//! User settings: defaults, the bounds every stored value is held to, and the
//! migration of the single legacy telemetry toggle.
use vstd::prelude::*;
use vstd::string::*;

use crate::text::{is_blank, text_is_blank};

verus! {

/// The status endpoint polled when the user configured none.
pub const DEFAULT_ENDPOINT: &'static str = "https://hascodexratelimitreset.today/api/status";

/// Lower and upper bounds of each clamped setting.
pub const POLL_INTERVAL_MIN_SEC: u64 = 30;
pub const POLL_INTERVAL_MAX_SEC: u64 = 900;
pub const LOW_POWER_INTERVAL_MIN_SEC: u64 = 60;
pub const LOW_POWER_INTERVAL_MAX_SEC: u64 = 900;
pub const HTTP_TIMEOUT_MIN_MS: u64 = 1_000;
pub const HTTP_TIMEOUT_MAX_MS: u64 = 30_000;
pub const UPDATE_INTERVAL_MIN_HOURS: u64 = 1;
pub const UPDATE_INTERVAL_MAX_HOURS: u64 = 24 * 30;

/// When a detected state change raises a notification.
#[derive(Debug, Clone, Copy, PartialEq, Eq, Structural)]
pub enum NotificationPolicy {
    /// Every change of state.
    Flip,
    /// Only a change whose new state is `yes`.
    NoToYes,
}

impl Default for NotificationPolicy {
    fn default() -> (r: Self)
        ensures
            r == NotificationPolicy::Flip,
    {
        NotificationPolicy::Flip
    }
}

/// The persisted settings of the application.
#[derive(Debug, Clone)]
pub struct AppSettings {
    pub poll_interval_sec: u64,
    pub low_power_poll_interval_sec: u64,
    pub http_timeout_ms: u64,
    pub notification_policy: NotificationPolicy,
    pub notify_initial_state: bool,
    pub launch_at_login: bool,
    pub update_checks_enabled: bool,
    pub update_check_interval_hours: u64,
    pub status_endpoint_url: String,
    pub error_telemetry_enabled: bool,
    pub usage_telemetry_enabled: bool,
    /// The single toggle of older settings files, read once and then dropped.
    pub legacy_telemetry_enabled: Option<bool>,
}

/// The settings as mathematical values.
pub struct SettingsView {
    pub poll_interval_sec: u64,
    pub low_power_poll_interval_sec: u64,
    pub http_timeout_ms: u64,
    pub notification_policy: NotificationPolicy,
    pub notify_initial_state: bool,
    pub launch_at_login: bool,
    pub update_checks_enabled: bool,
    pub update_check_interval_hours: u64,
    pub status_endpoint_url: Seq<char>,
    pub error_telemetry_enabled: bool,
    pub usage_telemetry_enabled: bool,
    pub legacy_telemetry_enabled: Option<bool>,
}

impl View for AppSettings {
    type V = SettingsView;

    open spec fn view(&self) -> SettingsView {
        SettingsView {
            poll_interval_sec: self.poll_interval_sec,
            low_power_poll_interval_sec: self.low_power_poll_interval_sec,
            http_timeout_ms: self.http_timeout_ms,
            notification_policy: self.notification_policy,
            notify_initial_state: self.notify_initial_state,
            launch_at_login: self.launch_at_login,
            update_checks_enabled: self.update_checks_enabled,
            update_check_interval_hours: self.update_check_interval_hours,
            status_endpoint_url: self.status_endpoint_url@,
            error_telemetry_enabled: self.error_telemetry_enabled,
            usage_telemetry_enabled: self.usage_telemetry_enabled,
            legacy_telemetry_enabled: self.legacy_telemetry_enabled,
        }
    }
}

/// The settings a fresh installation starts with.
pub open spec fn default_settings() -> SettingsView {
    SettingsView {
        poll_interval_sec: 60,
        low_power_poll_interval_sec: 300,
        http_timeout_ms: 8_000,
        notification_policy: NotificationPolicy::Flip,
        notify_initial_state: true,
        launch_at_login: false,
        update_checks_enabled: false,
        update_check_interval_hours: 24,
        status_endpoint_url: DEFAULT_ENDPOINT@,
        error_telemetry_enabled: true,
        usage_telemetry_enabled: false,
        legacy_telemetry_enabled: None,
    }
}

pub fn default_poll_interval_sec() -> (r: u64)
    ensures
        r == 60,
{
    60
}

pub fn default_low_power_poll_interval_sec() -> (r: u64)
    ensures
        r == 300,
{
    300
}

pub fn default_http_timeout_ms() -> (r: u64)
    ensures
        r == 8_000,
{
    8_000
}

pub fn default_update_check_interval_hours() -> (r: u64)
    ensures
        r == 24,
{
    24
}

pub fn default_endpoint_url() -> (r: String)
    ensures
        r@ == DEFAULT_ENDPOINT@,
{
    String::from_str(DEFAULT_ENDPOINT)
}

pub fn default_true() -> (r: bool)
    ensures
        r,
{
    true
}

impl Default for AppSettings {
    fn default() -> (r: Self)
        ensures
            r@ == default_settings(),
    {
        AppSettings {
            poll_interval_sec: default_poll_interval_sec(),
            low_power_poll_interval_sec: default_low_power_poll_interval_sec(),
            http_timeout_ms: default_http_timeout_ms(),
            notification_policy: NotificationPolicy::Flip,
            notify_initial_state: true,
            launch_at_login: false,
            update_checks_enabled: false,
            update_check_interval_hours: default_update_check_interval_hours(),
            status_endpoint_url: default_endpoint_url(),
            error_telemetry_enabled: true,
            usage_telemetry_enabled: false,
            legacy_telemetry_enabled: None,
        }
    }
}

/// `v` held to `lo..=hi` (`Ord::clamp` with `lo <= hi`).
pub open spec fn clamped(v: u64, lo: u64, hi: u64) -> u64 {
    if v < lo {
        lo
    } else if v > hi {
        hi
    } else {
        v
    }
}

fn clamp_u64(v: u64, lo: u64, hi: u64) -> (r: u64)
    requires
        lo <= hi,
    ensures
        r == clamped(v, lo, hi),
{
    if v < lo {
        lo
    } else if v > hi {
        hi
    } else {
        v
    }
}

/// What sanitizing makes of settings `s`: the legacy toggle, when present,
/// sets both telemetry toggles and is dropped; the intervals and the timeout
/// are clamped to their bounds; a blank endpoint becomes the default one.
pub open spec fn sanitized(s: SettingsView) -> SettingsView {
    SettingsView {
        poll_interval_sec: clamped(s.poll_interval_sec, POLL_INTERVAL_MIN_SEC, POLL_INTERVAL_MAX_SEC),
        low_power_poll_interval_sec: clamped(
            s.low_power_poll_interval_sec,
            LOW_POWER_INTERVAL_MIN_SEC,
            LOW_POWER_INTERVAL_MAX_SEC,
        ),
        http_timeout_ms: clamped(s.http_timeout_ms, HTTP_TIMEOUT_MIN_MS, HTTP_TIMEOUT_MAX_MS),
        update_check_interval_hours: clamped(
            s.update_check_interval_hours,
            UPDATE_INTERVAL_MIN_HOURS,
            UPDATE_INTERVAL_MAX_HOURS,
        ),
        status_endpoint_url: if is_blank(s.status_endpoint_url) {
            DEFAULT_ENDPOINT@
        } else {
            s.status_endpoint_url
        },
        error_telemetry_enabled: match s.legacy_telemetry_enabled {
            Some(b) => b,
            None => s.error_telemetry_enabled,
        },
        usage_telemetry_enabled: match s.legacy_telemetry_enabled {
            Some(b) => b,
            None => s.usage_telemetry_enabled,
        },
        legacy_telemetry_enabled: None,
        ..s
    }
}

/// Whether settings `s` already satisfy every bound that sanitizing enforces.
pub open spec fn within_bounds(s: SettingsView) -> bool {
    &&& POLL_INTERVAL_MIN_SEC <= s.poll_interval_sec <= POLL_INTERVAL_MAX_SEC
    &&& LOW_POWER_INTERVAL_MIN_SEC <= s.low_power_poll_interval_sec <= LOW_POWER_INTERVAL_MAX_SEC
    &&& HTTP_TIMEOUT_MIN_MS <= s.http_timeout_ms <= HTTP_TIMEOUT_MAX_MS
    &&& UPDATE_INTERVAL_MIN_HOURS <= s.update_check_interval_hours <= UPDATE_INTERVAL_MAX_HOURS
    &&& !is_blank(s.status_endpoint_url)
    &&& s.legacy_telemetry_enabled is None
}

/// Holds settings to their bounds and migrates the legacy telemetry toggle.
pub fn sanitize_settings(settings: AppSettings) -> (r: AppSettings)
    ensures
        r@ == sanitized(settings@),
{
    let mut settings = settings;
    if let Some(legacy) = settings.legacy_telemetry_enabled {
        settings.error_telemetry_enabled = legacy;
        settings.usage_telemetry_enabled = legacy;
    }
    settings.legacy_telemetry_enabled = None;
    settings.poll_interval_sec = clamp_u64(
        settings.poll_interval_sec,
        POLL_INTERVAL_MIN_SEC,
        POLL_INTERVAL_MAX_SEC,
    );
    settings.low_power_poll_interval_sec = clamp_u64(
        settings.low_power_poll_interval_sec,
        LOW_POWER_INTERVAL_MIN_SEC,
        LOW_POWER_INTERVAL_MAX_SEC,
    );
    settings.http_timeout_ms = clamp_u64(
        settings.http_timeout_ms,
        HTTP_TIMEOUT_MIN_MS,
        HTTP_TIMEOUT_MAX_MS,
    );
    settings.update_check_interval_hours = clamp_u64(
        settings.update_check_interval_hours,
        UPDATE_INTERVAL_MIN_HOURS,
        UPDATE_INTERVAL_MAX_HOURS,
    );
    if text_is_blank(settings.status_endpoint_url.as_str()) {
        settings.status_endpoint_url = default_endpoint_url();
    }
    settings
}

impl AppSettings {
    /// A field-by-field copy.
    pub fn duplicate(&self) -> (r: AppSettings)
        ensures
            r == *self,
    {
        AppSettings {
            poll_interval_sec: self.poll_interval_sec,
            low_power_poll_interval_sec: self.low_power_poll_interval_sec,
            http_timeout_ms: self.http_timeout_ms,
            notification_policy: self.notification_policy,
            notify_initial_state: self.notify_initial_state,
            launch_at_login: self.launch_at_login,
            update_checks_enabled: self.update_checks_enabled,
            update_check_interval_hours: self.update_check_interval_hours,
            status_endpoint_url: self.status_endpoint_url.clone(),
            error_telemetry_enabled: self.error_telemetry_enabled,
            usage_telemetry_enabled: self.usage_telemetry_enabled,
            legacy_telemetry_enabled: self.legacy_telemetry_enabled,
        }
    }
}

/// Whether any telemetry (error or usage) is switched on.
pub fn telemetry_enabled(settings: &AppSettings) -> (r: bool)
    ensures
        r == (settings.error_telemetry_enabled || settings.usage_telemetry_enabled),
{
    settings.error_telemetry_enabled || settings.usage_telemetry_enabled
}

/// The default endpoint is not blank.
pub proof fn lemma_default_endpoint_not_blank()
    ensures
        !is_blank(DEFAULT_ENDPOINT@),
{
    reveal_strlit("https://hascodexratelimitreset.today/api/status");
    assert(!crate::text::is_space(DEFAULT_ENDPOINT@[0]));
}

/// Sanitized settings are within every bound.
pub proof fn lemma_sanitized_within_bounds(s: SettingsView)
    ensures
        within_bounds(sanitized(s)),
{
    lemma_default_endpoint_not_blank();
}

/// Sanitizing leaves settings that are already within bounds unchanged.
pub proof fn lemma_sanitize_keeps_valid(s: SettingsView)
    requires
        within_bounds(s),
    ensures
        sanitized(s) == s,
{
}

/// Sanitizing twice gives what sanitizing once gives.
pub proof fn lemma_sanitize_idempotent(s: SettingsView)
    ensures
        sanitized(sanitized(s)) == sanitized(s),
{
    lemma_sanitized_within_bounds(s);
    lemma_sanitize_keeps_valid(sanitized(s));
}

/// The default settings are within every bound, so sanitizing keeps them.
pub proof fn lemma_default_settings_within_bounds()
    ensures
        within_bounds(default_settings()),
        sanitized(default_settings()) == default_settings(),
{
    lemma_default_endpoint_not_blank();
}

} // verus!
