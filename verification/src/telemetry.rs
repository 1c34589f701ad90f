//! What telemetry is sent, when, and with which tags. Sending itself is left
//! to the caller; the library only describes each event.
use vstd::prelude::*;
use vstd::string::*;

use crate::settings::AppSettings;

verus! {

/// The build flavour, reported with every event.
pub open spec fn build_channel_name(debug_build: bool) -> Seq<char> {
    if debug_build {
        "debug"@
    } else {
        "release"@
    }
}

/// `debug` for a build with debug assertions, `release` otherwise.
pub fn build_channel(debug_build: bool) -> (r: &'static str)
    ensures
        r@ == build_channel_name(debug_build),
{
    if debug_build {
        "debug"
    } else {
        "release"
    }
}

/// The TLS backend the HTTP client was built with.
#[derive(Debug, Clone, Copy, PartialEq, Eq, Structural)]
pub enum HttpBackend {
    NativeTls,
    Rustls,
}

pub open spec fn http_backend_name(backend: HttpBackend) -> Seq<char> {
    match backend {
        HttpBackend::NativeTls => "native-tls"@,
        HttpBackend::Rustls => "rustls"@,
    }
}

pub fn http_backend_label(backend: HttpBackend) -> (r: &'static str)
    ensures
        r@ == http_backend_name(backend),
{
    match backend {
        HttpBackend::NativeTls => "native-tls",
        HttpBackend::Rustls => "rustls",
    }
}

/// The failure counts at which a failed poll is reported: the first failure
/// and a few milestones of a streak, so a long outage sends few events.
pub open spec fn failure_milestone(consecutive_failures: u32) -> bool {
    consecutive_failures == 1 || consecutive_failures == 5 || consecutive_failures == 20
        || consecutive_failures == 100
}

/// Exactly four streak lengths are reported: 1, 5, 20 and 100.
pub proof fn lemma_failure_milestones()
    ensures
        Set::new(|c: u32| failure_milestone(c)) == set![1u32, 5u32, 20u32, 100u32],
        forall|c: u32|
            #![trigger failure_milestone(c)]
            failure_milestone(c) ==> 1 <= c <= 100,
        !failure_milestone(10),
{
    assert(Set::new(|c: u32| failure_milestone(c)) =~= set![1u32, 5u32, 20u32, 100u32]);
}

pub fn should_emit_poll_failure_telemetry(consecutive_failures: u32) -> (r: bool)
    ensures
        r == failure_milestone(consecutive_failures),
{
    consecutive_failures == 1 || consecutive_failures == 5 || consecutive_failures == 20
        || consecutive_failures == 100
}

/// Severity of a telemetry message.
#[derive(Debug, Clone, Copy, PartialEq, Eq, Structural)]
pub enum TelemetryLevel {
    Info,
    Error,
}

/// The three kinds of event: an error (with its kind), a message at a level,
/// and a usage event.
#[derive(Debug, Clone)]
pub enum ReportKind {
    ErrorEvent { error_kind: String },
    Message { level: TelemetryLevel },
    Usage,
}

/// One telemetry event to be sent.
#[derive(Debug, Clone)]
pub struct TelemetryReport {
    pub kind: ReportKind,
    pub event_type: String,
    pub component: String,
    pub message: String,
}

/// An error event is sent only when error telemetry is on and the client is up.
pub open spec fn error_reporting_on(settings: AppSettings, client_ready: bool) -> bool {
    settings.error_telemetry_enabled && client_ready
}

/// A usage event is sent only when usage telemetry is on and the client is up.
pub open spec fn usage_reporting_on(settings: AppSettings, client_ready: bool) -> bool {
    settings.usage_telemetry_enabled && client_ready
}

/// Whether `r` is the error event with these component, kind and message.
pub open spec fn is_error_report(
    r: TelemetryReport,
    component: Seq<char>,
    error_kind: Seq<char>,
    message: Seq<char>,
) -> bool {
    &&& r.kind matches ReportKind::ErrorEvent { error_kind: k } && k@ == error_kind
    &&& r.event_type@ == "error"@
    &&& r.component@ == component
    &&& r.message@ == message
}

/// Whether `r` is the message event with these fields.
pub open spec fn is_message_report(
    r: TelemetryReport,
    event_type: Seq<char>,
    component: Seq<char>,
    level: TelemetryLevel,
    message: Seq<char>,
) -> bool {
    &&& r.kind matches ReportKind::Message { level: l } && l == level
    &&& r.event_type@ == event_type
    &&& r.component@ == component
    &&& r.message@ == message
}

/// Whether `r` is the usage event with these fields.
pub open spec fn is_usage_report(
    r: TelemetryReport,
    event_type: Seq<char>,
    component: Seq<char>,
    message: Seq<char>,
) -> bool {
    &&& r.kind is Usage
    &&& r.event_type@ == event_type
    &&& r.component@ == component
    &&& r.message@ == message
}

/// The error event for `component`, `error_kind` and `message`, if error
/// telemetry may be sent.
pub fn error_report(
    settings: &AppSettings,
    client_ready: bool,
    component: &str,
    error_kind: &str,
    message: &str,
) -> (r: Option<TelemetryReport>)
    ensures
        r is Some <==> error_reporting_on(*settings, client_ready),
        r matches Some(rep) ==> is_error_report(rep, component@, error_kind@, message@),
{
    if !settings.error_telemetry_enabled || !client_ready {
        return None;
    }
    Some(
        TelemetryReport {
            kind: ReportKind::ErrorEvent { error_kind: String::from_str(error_kind) },
            event_type: String::from_str("error"),
            component: String::from_str(component),
            message: String::from_str(message),
        },
    )
}

/// The message event with these fields, if error telemetry may be sent
/// (messages are diagnostics and follow the error toggle).
pub fn message_report(
    settings: &AppSettings,
    client_ready: bool,
    event_type: &str,
    component: &str,
    level: TelemetryLevel,
    message: &str,
) -> (r: Option<TelemetryReport>)
    ensures
        r is Some <==> error_reporting_on(*settings, client_ready),
        r matches Some(rep) ==> is_message_report(rep, event_type@, component@, level, message@),
{
    if !settings.error_telemetry_enabled || !client_ready {
        return None;
    }
    Some(
        TelemetryReport {
            kind: ReportKind::Message { level },
            event_type: String::from_str(event_type),
            component: String::from_str(component),
            message: String::from_str(message),
        },
    )
}

/// The usage event with these fields, if usage telemetry may be sent.
pub fn usage_report(
    settings: &AppSettings,
    client_ready: bool,
    event_type: &str,
    component: &str,
    message: &str,
) -> (r: Option<TelemetryReport>)
    ensures
        r is Some <==> usage_reporting_on(*settings, client_ready),
        r matches Some(rep) ==> is_usage_report(rep, event_type@, component@, message@),
{
    if !settings.usage_telemetry_enabled || !client_ready {
        return None;
    }
    Some(
        TelemetryReport {
            kind: ReportKind::Usage,
            event_type: String::from_str(event_type),
            component: String::from_str(component),
            message: String::from_str(message),
        },
    )
}

/// Where an event comes from, attached to it as tags.
pub struct TelemetryContext {
    pub platform: String,
    pub app_version: String,
    pub build_channel: String,
    pub installation_id: String,
}

/// The tags of an event, in the order they are set: event type, component,
/// the error kind of an error event, then platform, version, build channel
/// and installation id.
pub open spec fn report_tags(r: TelemetryReport, ctx: TelemetryContext) -> Seq<(Seq<char>, Seq<char>)> {
    let head = seq![("event_type"@, r.event_type@), ("component"@, r.component@)];
    let kind = match r.kind {
        ReportKind::ErrorEvent { error_kind } => seq![("error_kind"@, error_kind@)],
        _ => Seq::<(Seq<char>, Seq<char>)>::empty(),
    };
    head + kind + seq![
        ("platform"@, ctx.platform@),
        ("app_version"@, ctx.app_version@),
        ("build_channel"@, ctx.build_channel@),
        ("installation_id"@, ctx.installation_id@),
    ]
}

pub open spec fn pair_views(v: Seq<(String, String)>) -> Seq<(Seq<char>, Seq<char>)> {
    v.map_values(|p: (String, String)| (p.0@, p.1@))
}

fn tag(key: &str, value: &String) -> (r: (String, String))
    ensures
        r.0@ == key@,
        r.1@ == value@,
{
    (String::from_str(key), value.clone())
}

/// The tags to attach to event `r`.
pub fn telemetry_tags(r: &TelemetryReport, ctx: &TelemetryContext) -> (tags: Vec<(String, String)>)
    ensures
        pair_views(tags@) == report_tags(*r, *ctx),
{
    let mut tags: Vec<(String, String)> = Vec::new();
    tags.push(tag("event_type", &r.event_type));
    tags.push(tag("component", &r.component));
    match &r.kind {
        ReportKind::ErrorEvent { error_kind } => {
            tags.push(tag("error_kind", error_kind));
        },
        _ => {},
    }
    tags.push(tag("platform", &ctx.platform));
    tags.push(tag("app_version", &ctx.app_version));
    tags.push(tag("build_channel", &ctx.build_channel));
    tags.push(tag("installation_id", &ctx.installation_id));
    assert(pair_views(tags@) =~= report_tags(*r, *ctx));
    tags
}

/// Why the manual telemetry test cannot be sent, or the event it sends.
pub open spec fn test_event_precheck_ok(settings: AppSettings, client_ready: bool) -> bool {
    settings.error_telemetry_enabled && client_ready
}

/// The manual telemetry test: refused while error telemetry is off or the
/// client is not initialized, otherwise the test error event.
pub fn test_telemetry_event(settings: &AppSettings, client_ready: bool) -> (r: Result<
    TelemetryReport,
    String,
>)
    ensures
        r is Ok <==> test_event_precheck_ok(*settings, client_ready),
        !settings.error_telemetry_enabled ==> (r matches Err(m) && m@
            == "Error telemetry is disabled in settings."@),
        settings.error_telemetry_enabled && !client_ready ==> (r matches Err(m) && m@
            == "Sentry is not initialized. Set SENTRY_DSN and restart app."@),
        r matches Ok(rep) ==> is_error_report(
            rep,
            "ui"@,
            "manual_telemetry_test"@,
            "Everything is on fire! (ResetPing telemetry test)"@,
        ),
{
    if !settings.error_telemetry_enabled {
        return Err(String::from_str("Error telemetry is disabled in settings."));
    }
    if !client_ready {
        return Err(String::from_str("Sentry is not initialized. Set SENTRY_DSN and restart app."));
    }
    Ok(
        TelemetryReport {
            kind: ReportKind::ErrorEvent { error_kind: String::from_str("manual_telemetry_test") },
            event_type: String::from_str("error"),
            component: String::from_str("ui"),
            message: String::from_str("Everything is on fire! (ResetPing telemetry test)"),
        },
    )
}

} // verus!
