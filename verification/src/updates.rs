//! Update checks: what a check reports, and how its result is recorded.
use vstd::prelude::*;
use vstd::string::*;

use crate::poll::push_line;
use crate::runtime::{line, log_kept, LogLevel, Notification, RuntimeState};
use crate::settings::AppSettings;
use crate::telemetry::{
    error_report, error_reporting_on, is_error_report, is_usage_report, usage_report,
    usage_reporting_on, TelemetryReport,
};
use crate::text::{is_blank, text_is_blank};

verus! {

/// The outcome of an update check, as shown in the settings window.
#[derive(Debug, Clone, Copy, PartialEq, Eq, Structural)]
pub enum UpdateCheckStatus {
    UpToDate,
    UpdateAvailable,
    UnsupportedPlatform,
    CheckFailed,
}

/// The result of an update check or installation.
#[derive(Debug, Clone)]
pub struct UpdateCheckResponse {
    pub checked_at: u64,
    pub status: UpdateCheckStatus,
    pub version: Option<String>,
    pub current_version: Option<String>,
    pub notes: Option<String>,
    pub install_ready: bool,
    pub message: String,
}


/// A copy of an optional text.
pub fn copy_opt_string(o: &Option<String>) -> (r: Option<String>)
    ensures
        r == *o,
{
    match o {
        Some(s) => Some(s.clone()),
        None => None,
    }
}

impl UpdateCheckResponse {
    /// A field-by-field copy.
    pub fn duplicate(&self) -> (r: UpdateCheckResponse)
        ensures
            r == *self,
    {
        UpdateCheckResponse {
            checked_at: self.checked_at,
            status: self.status,
            version: copy_opt_string(&self.version),
            current_version: copy_opt_string(&self.current_version),
            notes: copy_opt_string(&self.notes),
            install_ready: self.install_ready,
            message: self.message.clone(),
        }
    }
}

pub fn copy_opt_response(o: &Option<UpdateCheckResponse>) -> (r: Option<UpdateCheckResponse>)
    ensures
        r == *o,
{
    match o {
        Some(x) => Some(x.duplicate()),
        None => None,
    }
}


/// Builds an update check response from its fields.
pub fn update_response(
    checked_at: u64,
    status: UpdateCheckStatus,
    version: Option<String>,
    current_version: Option<String>,
    notes: Option<String>,
    install_ready: bool,
    message: String,
) -> (r: UpdateCheckResponse)
    ensures
        r == (UpdateCheckResponse {
            checked_at,
            status,
            version,
            current_version,
            notes,
            install_ready,
            message,
        }),
{
    UpdateCheckResponse { checked_at, status, version, current_version, notes, install_ready, message }
}

/// The operating system the application was built for.
#[derive(Debug, Clone, Copy, PartialEq, Eq, Structural)]
pub enum TargetOs {
    MacOs,
    Windows,
    Linux,
    Other,
}

/// The in-app updater is offered on macOS only.
pub fn updater_supported_platform(os: TargetOs) -> (r: bool)
    ensures
        r == (os == TargetOs::MacOs),
{
    match os {
        TargetOs::MacOs => true,
        _ => false,
    }
}

/// The configured key, unless it is blank.
pub open spec fn usable_public_key(configured: Option<&'static str>) -> Option<&'static str> {
    match configured {
        Some(k) => if is_blank(k@) {
            None
        } else {
            Some(k)
        },
        None => None,
    }
}

/// The updater public key configured at build time, unless it is blank.
pub fn updater_public_key(configured: Option<&'static str>) -> (r: Option<&'static str>)
    ensures
        r == usable_public_key(configured),
{
    match configured {
        Some(k) => {
            if text_is_blank(k) {
                None
            } else {
                Some(k)
            }
        },
        None => None,
    }
}

/// What started an update check.
#[derive(Debug, Clone, Copy, PartialEq, Eq, Structural)]
pub enum UpdateCheckTrigger {
    Manual,
    Scheduled,
}

pub open spec fn trigger_text(t: UpdateCheckTrigger) -> Seq<char> {
    match t {
        UpdateCheckTrigger::Manual => "Manual update check requested"@,
        UpdateCheckTrigger::Scheduled => "Background update check requested"@,
    }
}

fn trigger_message(t: UpdateCheckTrigger) -> (r: &'static str)
    ensures
        r@ == trigger_text(t),
{
    match t {
        UpdateCheckTrigger::Manual => "Manual update check requested",
        UpdateCheckTrigger::Scheduled => "Background update check requested",
    }
}

/// How an attempt to check for updates ended.
#[derive(Debug, Clone)]
pub enum UpdaterOutcome {
    UnsupportedPlatform,
    MissingPublicKey,
    InvalidEndpoint(String),
    SetupFailed(String),
    CheckFailed(String),
    UpToDate,
    Available { version: String, current_version: String, notes: Option<String> },
}

/// Before contacting the update server: the platform must support the
/// updater and a public key must be configured.
pub fn updater_preflight(os: TargetOs, configured_key: Option<&'static str>) -> (r: Result<
    &'static str,
    UpdaterOutcome,
>)
    ensures
        os != TargetOs::MacOs ==> r matches Err(UpdaterOutcome::UnsupportedPlatform),
        os == TargetOs::MacOs ==> match usable_public_key(configured_key) {
            Some(k) => r == Ok::<&'static str, UpdaterOutcome>(k),
            None => r matches Err(UpdaterOutcome::MissingPublicKey),
        },
{
    if !updater_supported_platform(os) {
        return Err(UpdaterOutcome::UnsupportedPlatform);
    }
    match updater_public_key(configured_key) {
        Some(k) => Ok(k),
        None => Err(UpdaterOutcome::MissingPublicKey),
    }
}

/// The response a check outcome is reported with.
pub open spec fn outcome_response_ok(
    r: UpdateCheckResponse,
    checked_at: u64,
    outcome: UpdaterOutcome,
    app_version: Seq<char>,
) -> bool {
    &&& r.checked_at == checked_at
    &&& match outcome {
        UpdaterOutcome::Available { version, current_version, notes } => {
            &&& r.status == UpdateCheckStatus::UpdateAvailable
            &&& r.version == Some(version)
            &&& r.current_version == Some(current_version)
            &&& r.notes == notes
            &&& r.install_ready
            &&& r.message@ == "Update is available. Use Install Update to apply it."@
        },
        _ => {
            &&& r.version is None
            &&& r.current_version matches Some(v) && v@ == app_version
            &&& r.notes is None
            &&& !r.install_ready
            &&& match outcome {
                UpdaterOutcome::UnsupportedPlatform => r.status == UpdateCheckStatus::UnsupportedPlatform
                    && r.message@ == "In-app updater is enabled on macOS only for v1."@,
                UpdaterOutcome::MissingPublicKey => r.status == UpdateCheckStatus::CheckFailed
                    && r.message@ == "Updater public key is not configured."@,
                UpdaterOutcome::InvalidEndpoint(e) => r.status == UpdateCheckStatus::CheckFailed
                    && r.message@ == "Updater endpoint URL is invalid: "@ + e@,
                UpdaterOutcome::SetupFailed(e) => r.status == UpdateCheckStatus::CheckFailed
                    && r.message@ == "Updater initialization failed: "@ + e@,
                UpdaterOutcome::CheckFailed(e) => r.status == UpdateCheckStatus::CheckFailed
                    && r.message@ == "Update check failed: "@ + e@,
                UpdaterOutcome::UpToDate => r.status == UpdateCheckStatus::UpToDate && r.message@
                    == "ResetPing is up to date."@,
                _ => true,
            }
        },
    }
}

fn prefixed(prefix: &str, e: &String) -> (r: String)
    ensures
        r@ == prefix@ + e@,
{
    let mut m = String::from_str(prefix);
    m.append(e.as_str());
    m
}

/// The response reporting how a check ended; `app_version` is the running
/// version, reported as current where the server named none.
pub fn check_response(checked_at: u64, outcome: UpdaterOutcome, app_version: &str) -> (r:
    UpdateCheckResponse)
    ensures
        outcome_response_ok(r, checked_at, outcome, app_version@),
{
    let (status, message) = match &outcome {
        UpdaterOutcome::UnsupportedPlatform => (
            UpdateCheckStatus::UnsupportedPlatform,
            String::from_str("In-app updater is enabled on macOS only for v1."),
        ),
        UpdaterOutcome::MissingPublicKey => (
            UpdateCheckStatus::CheckFailed,
            String::from_str("Updater public key is not configured."),
        ),
        UpdaterOutcome::InvalidEndpoint(e) => (
            UpdateCheckStatus::CheckFailed,
            prefixed("Updater endpoint URL is invalid: ", e),
        ),
        UpdaterOutcome::SetupFailed(e) => (
            UpdateCheckStatus::CheckFailed,
            prefixed("Updater initialization failed: ", e),
        ),
        UpdaterOutcome::CheckFailed(e) => (
            UpdateCheckStatus::CheckFailed,
            prefixed("Update check failed: ", e),
        ),
        UpdaterOutcome::UpToDate => (
            UpdateCheckStatus::UpToDate,
            String::from_str("ResetPing is up to date."),
        ),
        UpdaterOutcome::Available { .. } => (
            UpdateCheckStatus::UpdateAvailable,
            String::from_str("Update is available. Use Install Update to apply it."),
        ),
    };
    match outcome {
        UpdaterOutcome::Available { version, current_version, notes } => update_response(
            checked_at,
            status,
            Some(version),
            Some(current_version),
            notes,
            true,
            message,
        ),
        _ => update_response(
            checked_at,
            status,
            None,
            Some(String::from_str(app_version)),
            None,
            false,
            message,
        ),
    }
}

/// The error event for a check that failed at setup or at the server, if
/// error telemetry may be sent.
pub fn check_failure_report(settings: &AppSettings, client_ready: bool, outcome: &UpdaterOutcome) -> (r:
    Option<TelemetryReport>)
    ensures
        r is Some <==> (error_reporting_on(*settings, client_ready) && (outcome is SetupFailed
            || outcome is CheckFailed)),
        r matches Some(rep) ==> match *outcome {
            UpdaterOutcome::SetupFailed(e) => is_error_report(
                rep,
                "updater"@,
                "setup_failed"@,
                "Updater initialization failed: "@ + e@,
            ),
            UpdaterOutcome::CheckFailed(e) => is_error_report(
                rep,
                "updater"@,
                "check_failed"@,
                "Updater check failed: "@ + e@,
            ),
            _ => false,
        },
{
    match outcome {
        UpdaterOutcome::SetupFailed(e) => {
            let m = prefixed("Updater initialization failed: ", e);
            error_report(settings, client_ready, "updater", "setup_failed", m.as_str())
        },
        UpdaterOutcome::CheckFailed(e) => {
            let m = prefixed("Updater check failed: ", e);
            error_report(settings, client_ready, "updater", "check_failed", m.as_str())
        },
        _ => None,
    }
}

/// A check that finds an update reports it as available and installable,
/// with exactly the version, current version and release notes the update
/// server gave; every other outcome reports no version, no notes, and the
/// running version as current.
pub proof fn lemma_found_update_is_reported_whole(
    r: UpdateCheckResponse,
    checked_at: u64,
    outcome: UpdaterOutcome,
    app_version: Seq<char>,
)
    requires
        outcome_response_ok(r, checked_at, outcome, app_version),
    ensures
        r.checked_at == checked_at,
        outcome matches UpdaterOutcome::Available { version, current_version, notes } ==> {
            &&& r.status == UpdateCheckStatus::UpdateAvailable
            &&& r.version == Some(version)
            &&& r.current_version == Some(current_version)
            &&& r.notes == notes
            &&& r.install_ready
        },
        !(outcome is Available) ==> (r.version is None && r.notes is None && !r.install_ready && (
        r.current_version matches Some(v) && v@ == app_version)),
{
}

/// Whether the result of a check is recorded in the state. A check whose
/// endpoint URL is invalid is answered without being recorded.
pub open spec fn outcome_recorded(outcome: UpdaterOutcome) -> bool {
    !(outcome is InvalidEndpoint)
}

pub fn is_outcome_recorded(outcome: &UpdaterOutcome) -> (r: bool)
    ensures
        r == outcome_recorded(*outcome),
{
    match outcome {
        UpdaterOutcome::InvalidEndpoint(_) => false,
        _ => true,
    }
}

pub open spec fn opt_text(o: Option<String>) -> Option<Seq<char>> {
    match o {
        Some(s) => Some(s@),
        None => None,
    }
}

fn opt_text_eq(a: &Option<String>, b: &Option<String>) -> (r: bool)
    ensures
        r == (opt_text(*a) == opt_text(*b)),
{
    match (a, b) {
        (Some(x), Some(y)) => *x == *y,
        (None, None) => true,
        _ => false,
    }
}

/// Whether `b` keeps every field of `a` that an update check leaves alone.
pub open spec fn keeps_poll_state(a: RuntimeState, b: RuntimeState) -> bool {
    &&& b.settings == a.settings
    &&& b.snapshot == a.snapshot
    &&& b.transitions@ == a.transitions@
    &&& b.in_flight == a.in_flight
    &&& b.installation_id == a.installation_id
    &&& b.last_usage_heartbeat_at_ms == a.last_usage_heartbeat_at_ms
    &&& b.sentry_dsn == a.sentry_dsn
}

/// Whether a finished check notifies in the background: it was scheduled,
/// found an update, and that version was not notified already.
pub open spec fn notifies_update(
    trigger: UpdateCheckTrigger,
    response: UpdateCheckResponse,
    notified: Option<String>,
) -> bool {
    &&& trigger == UpdateCheckTrigger::Scheduled
    &&& response.status == UpdateCheckStatus::UpdateAvailable
    &&& opt_text(response.version) != opt_text(notified)
    &&& response.version is Some
}

/// A found version is notified once: after a scheduled check notified it
/// (and recorded it as notified), the same result does not notify again;
/// and a manual check never notifies.
pub proof fn lemma_update_notified_once(response: UpdateCheckResponse, notified: Option<String>)
    ensures
        !notifies_update(UpdateCheckTrigger::Scheduled, response, response.version),
        !notifies_update(UpdateCheckTrigger::Manual, response, notified),
{
}

impl RuntimeState {
    /// Starts an update check at `checked_at`: the time is recorded, the
    /// trigger logged, and a usage event described if usage telemetry may
    /// be sent.
    pub fn begin_update_check(
        &mut self,
        trigger: UpdateCheckTrigger,
        checked_at: u64,
        client_ready: bool,
    ) -> (r: Option<TelemetryReport>)
        ensures
            keeps_poll_state(*old(self), *final(self)),
            log_kept(old(self).logs@, final(self).logs@),
            final(self).last_update_check_ms == Some(checked_at),
            final(self).pending_update_version == old(self).pending_update_version,
            final(self).updater == old(self).updater,
            final(self).background_notified_update_version
                == old(self).background_notified_update_version,
            final(self).lines() == push_line(old(self).lines(), line(LogLevel::Info, trigger_text(trigger))),
            r is Some <==> usage_reporting_on(old(self).settings, client_ready),
            r matches Some(rep) ==> is_usage_report(rep, "update_check"@, "updater"@, trigger_text(trigger)),
    {
        self.last_update_check_ms = Some(checked_at);
        let msg = trigger_message(trigger);
        let report = usage_report(&self.settings, client_ready, "update_check", "updater", msg);
        self.push_log(LogLevel::Info, String::from_str(msg));
        report
    }

    /// Records a finished check. A found update becomes the pending one;
    /// any other result clears the pending update and the record of which
    /// version was notified. A scheduled check that finds a version not yet
    /// notified asks for a notification and remembers the version. The
    /// result is logged (as an error when the check failed) and kept.
    pub fn finish_update_check(&mut self, trigger: UpdateCheckTrigger, response: UpdateCheckResponse) -> (r:
        Option<Notification>)
        ensures
            keeps_poll_state(*old(self), *final(self)),
            log_kept(old(self).logs@, final(self).logs@),
            final(self).last_update_check_ms == old(self).last_update_check_ms,
            final(self).updater == Some(response),
            response.status == UpdateCheckStatus::UpdateAvailable
                ==> final(self).pending_update_version == response.version,
            response.status != UpdateCheckStatus::UpdateAvailable
                ==> final(self).pending_update_version is None,
            final(self).background_notified_update_version == if notifies_update(
                trigger,
                response,
                old(self).background_notified_update_version,
            ) {
                response.version
            } else if response.status == UpdateCheckStatus::UpdateAvailable {
                old(self).background_notified_update_version
            } else {
                None
            },
            r is Some <==> notifies_update(trigger, response, old(self).background_notified_update_version),
            r matches Some(n) ==> n.title@ == "ResetPing: update available"@ && n.body@ == "Version "@
                + response.version->0@ + " is available. Open Settings to install."@,
            final(self).lines() == push_line(
                old(self).lines(),
                line(
                    if response.status == UpdateCheckStatus::CheckFailed {
                        LogLevel::Error
                    } else {
                        LogLevel::Info
                    },
                    response.message@,
                ),
            ),
    {
        let available = response.status == UpdateCheckStatus::UpdateAvailable;
        let should_notify = trigger == UpdateCheckTrigger::Scheduled && available && !opt_text_eq(
            &response.version,
            &self.background_notified_update_version,
        );
        if available {
            self.pending_update_version = copy_opt_string(&response.version);
        } else {
            self.pending_update_version = None;
            self.background_notified_update_version = None;
        }
        let mut notification = None;
        if should_notify {
            if let Some(version) = &response.version {
                let mut body = String::from_str("Version ");
                body.append(version.as_str());
                body.append(" is available. Open Settings to install.");
                notification = Some(
                    Notification { title: String::from_str("ResetPing: update available"), body },
                );
                self.background_notified_update_version = Some(version.clone());
            }
        }
        let level = if response.status == UpdateCheckStatus::CheckFailed {
            LogLevel::Error
        } else {
            LogLevel::Info
        };
        self.push_log(level, response.message.clone());
        self.updater = Some(response);
        notification
    }

    /// Starts installing the pending update: refused off the supported
    /// platform and when no update is pending; otherwise the pending update
    /// is taken and its installation logged, and its version is returned with
    /// the settings in force as the installation starts.
    pub fn begin_install(&mut self, supported_platform: bool) -> (r: Result<(String, AppSettings), String>)
        ensures
            !supported_platform ==> (r matches Err(m) && m@
                == "In-app updater is enabled on macOS only for v1."@ && *final(self) == *old(self)),
            supported_platform && old(self).pending_update_version is None ==> (r matches Err(m)
                && m@ == "No pending update is ready to install. Run Check Updates first."@
                && *final(self) == *old(self)),
            supported_platform && old(self).pending_update_version is Some ==> {
                &&& r == Ok::<(String, AppSettings), String>(
                    (old(self).pending_update_version->0, old(self).settings),
                )
                &&& keeps_poll_state(*old(self), *final(self))
                &&& log_kept(old(self).logs@, final(self).logs@)
                &&& final(self).pending_update_version is None
                &&& final(self).updater == old(self).updater
                &&& final(self).last_update_check_ms == old(self).last_update_check_ms
                &&& final(self).background_notified_update_version
                    == old(self).background_notified_update_version
                &&& final(self).lines() == push_line(
                    old(self).lines(),
                    line(
                        LogLevel::Info,
                        "Installing update "@ + old(self).pending_update_version->0@ + "..."@,
                    ),
                )
            },
    {
        if !supported_platform {
            return Err(String::from_str("In-app updater is enabled on macOS only for v1."));
        }
        match self.pending_update_version.take() {
            None => Err(String::from_str("No pending update is ready to install. Run Check Updates first.")),
            Some(version) => {
                let mut m = String::from_str("Installing update ");
                m.append(version.as_str());
                m.append("...");
                self.push_log(LogLevel::Info, m);
                Ok((version, self.settings.duplicate()))
            },
        }
    }

    /// Records a failed installation: the failure becomes the updater
    /// result and is logged; the message is returned with the error event
    /// that describes it, if error telemetry may be sent under the settings
    /// that were in force when the installation started (`install_settings`).
    pub fn install_failed(
        &mut self,
        error: &str,
        now: u64,
        app_version: &str,
        install_settings: &AppSettings,
        client_ready: bool,
    ) -> (r: (
        String,
        Option<TelemetryReport>,
    ))
        ensures
            r.0@ == "Update install failed: "@ + error@,
            keeps_poll_state(*old(self), *final(self)),
            log_kept(old(self).logs@, final(self).logs@),
            final(self).pending_update_version == old(self).pending_update_version,
            final(self).last_update_check_ms == old(self).last_update_check_ms,
            final(self).background_notified_update_version
                == old(self).background_notified_update_version,
            final(self).updater matches Some(u) && u.checked_at == now && u.status
                == UpdateCheckStatus::CheckFailed && u.version is None && (u.current_version matches Some(
                v,
            ) && v@ == app_version@) && u.notes is None && !u.install_ready && u.message@ == r.0@,
            final(self).lines() == push_line(old(self).lines(), line(LogLevel::Error, r.0@)),
            r.1 is Some <==> error_reporting_on(*install_settings, client_ready),
            r.1 matches Some(rep) ==> is_error_report(rep, "updater"@, "install_failed"@, r.0@),
    {
        let mut message = String::from_str("Update install failed: ");
        message.append(error);
        self.updater = Some(
            update_response(
                now,
                UpdateCheckStatus::CheckFailed,
                None,
                Some(String::from_str(app_version)),
                None,
                false,
                message.clone(),
            ),
        );
        self.push_log(LogLevel::Error, message.clone());
        let report = error_report(
            install_settings,
            client_ready,
            "updater",
            "install_failed",
            message.as_str(),
        );
        (message, report)
    }

    /// Records a successful installation, just before the restart: the
    /// updater reports up to date, the notified version is forgotten, and
    /// the success is logged.
    pub fn install_succeeded(&mut self, now: u64, app_version: &str)
        ensures
            keeps_poll_state(*old(self), *final(self)),
            log_kept(old(self).logs@, final(self).logs@),
            final(self).pending_update_version == old(self).pending_update_version,
            final(self).last_update_check_ms == old(self).last_update_check_ms,
            final(self).background_notified_update_version is None,
            final(self).updater matches Some(u) && u.checked_at == now && u.status
                == UpdateCheckStatus::UpToDate && u.version is None && (u.current_version matches Some(
                v,
            ) && v@ == app_version@) && u.notes is None && !u.install_ready && u.message@
                == "Update installed successfully. Restarting..."@,
            final(self).lines() == push_line(
                old(self).lines(),
                line(LogLevel::Info, "Update installed successfully. Restarting..."@),
            ),
    {
        self.updater = Some(
            update_response(
                now,
                UpdateCheckStatus::UpToDate,
                None,
                Some(String::from_str(app_version)),
                None,
                false,
                String::from_str("Update installed successfully. Restarting..."),
            ),
        );
        self.background_notified_update_version = None;
        self.push_log(
            LogLevel::Info,
            String::from_str("Update installed successfully. Restarting..."),
        );
    }
}

} // verus!
