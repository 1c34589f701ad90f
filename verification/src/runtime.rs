//! The runtime state of the application: the status snapshot, the bounded
//! transition history and diagnostics log, and what is shown and stored of it.
use vstd::prelude::*;
use vstd::string::*;
use std::collections::VecDeque;

use crate::schedule::now_ms;
use crate::settings::{sanitized, sanitize_settings, AppSettings};
use crate::telemetry::{http_backend_label, http_backend_name, HttpBackend};
use crate::text::{decimal, push_decimal, to_uppercase, uppercase_of};
use crate::updates::{copy_opt_response, copy_opt_string, UpdateCheckResponse};

verus! {

/// Transitions kept in the history.
pub const TRANSITIONS_LIMIT: usize = 100;

/// Entries kept in the diagnostics log.
pub const LOG_LIMIT: usize = 200;

/// Consecutive failed polls from which the endpoint counts as degraded.
pub const FAILURE_THRESHOLD: u32 = 5;

/// What is known of the upstream status across polls.
#[derive(Debug, Clone)]
pub struct RuntimeSnapshot {
    pub last_known_state: Option<String>,
    pub last_success_at: Option<u64>,
    pub consecutive_failures: u32,
    pub last_error_summary: Option<String>,
}

impl Default for RuntimeSnapshot {
    fn default() -> (r: Self)
        ensures
            r.last_known_state is None,
            r.last_success_at is None,
            r.consecutive_failures == 0,
            r.last_error_summary is None,
    {
        RuntimeSnapshot {
            last_known_state: None,
            last_success_at: None,
            consecutive_failures: 0,
            last_error_summary: None,
        }
    }
}

/// One observed change of the upstream state.
#[derive(Debug, Clone)]
pub struct TransitionEntry {
    pub from: String,
    pub to: String,
    pub detected_at: u64,
    pub source_updated_at: Option<u64>,
}

/// One line of the diagnostics log.
#[derive(Debug, Clone)]
pub struct LogEntry {
    pub timestamp_ms: u64,
    pub level: String,
    pub message: String,
}

/// Severity of a diagnostics log line.
#[derive(Debug, Clone, Copy, PartialEq, Eq, Structural)]
pub enum LogLevel {
    Info,
    Warn,
    Error,
}

pub open spec fn level_name(level: LogLevel) -> Seq<char> {
    match level {
        LogLevel::Info => "info"@,
        LogLevel::Warn => "warn"@,
        LogLevel::Error => "error"@,
    }
}

fn level_string(level: LogLevel) -> (r: String)
    ensures
        r@ == level_name(level),
{
    match level {
        LogLevel::Info => String::from_str("info"),
        LogLevel::Warn => String::from_str("warn"),
        LogLevel::Error => String::from_str("error"),
    }
}

/// `s` with `x` appended, keeping only the newest `cap` items.
pub open spec fn ring_push<T>(s: Seq<T>, x: T, cap: nat) -> Seq<T> {
    let t = s.push(x);
    if t.len() > cap {
        t.subrange(t.len() - cap, t.len() as int)
    } else {
        t
    }
}

/// Appends `x` to `q`, then drops items from the front while more than `cap`
/// remain.
pub fn ring_push_back<T>(q: &mut VecDeque<T>, x: T, cap: usize)
    requires
        cap > 0,
    ensures
        final(q)@ == ring_push(old(q)@, x, cap as nat),
{
    let ghost t = old(q)@.push(x);
    q.push_back(x);
    let ghost mut k: int = 0;
    while q.len() > cap
        invariant
            cap > 0,
            0 <= k <= t.len(),
            q@ == t.subrange(k, t.len() as int),
            k == 0 || t.len() - k >= cap,
        decreases q@.len(),
    {
        q.pop_front();
        proof {
            k = k + 1;
        }
    }
    assert(k == 0 ==> q@ == t);
}

/// The log as (level, message) lines, without timestamps.
pub open spec fn log_lines(s: Seq<LogEntry>) -> Seq<(Seq<char>, Seq<char>)> {
    s.map_values(|e: LogEntry| (e.level@, e.message@))
}

/// Mapping commutes with keeping the newest items.
pub proof fn lemma_ring_push_map<T, U>(s: Seq<T>, x: T, cap: nat, f: spec_fn(T) -> U)
    ensures
        ring_push(s, x, cap).map_values(f) == ring_push(s.map_values(f), f(x), cap),
{
    let t = s.push(x);
    assert(t.map_values(f) =~= s.map_values(f).push(f(x)));
    if t.len() > cap {
        assert(t.subrange(t.len() - cap, t.len() as int).map_values(f) =~= t.map_values(f).subrange(
            t.len() - cap,
            t.len() as int,
        ));
    }
}

/// After a push a ring holds `min(len + 1, cap)` items, so never more than
/// its capacity, and the pushed item is the newest.
pub proof fn lemma_ring_push_bounded<T>(s: Seq<T>, x: T, cap: nat)
    requires
        cap > 0,
    ensures
        ring_push(s, x, cap).len() <= cap,
        ring_push(s, x, cap).len() == if s.len() + 1 > cap {
            cap
        } else {
            s.len() + 1
        },
        ring_push(s, x, cap).last() == x,
{
}

/// The runtime state shared by the poll loop and the settings window.
pub struct RuntimeState {
    pub settings: AppSettings,
    pub snapshot: RuntimeSnapshot,
    pub transitions: VecDeque<TransitionEntry>,
    pub logs: VecDeque<LogEntry>,
    pub in_flight: bool,
    pub last_update_check_ms: Option<u64>,
    /// The version of the update that was found and awaits installation.
    pub pending_update_version: Option<String>,
    pub updater: Option<UpdateCheckResponse>,
    pub background_notified_update_version: Option<String>,
    pub installation_id: String,
    pub last_usage_heartbeat_at_ms: Option<u64>,
    pub sentry_dsn: Option<String>,
}

/// Whether `b` differs from `a` at most in the diagnostics log.
pub open spec fn same_but_logs(a: RuntimeState, b: RuntimeState) -> bool {
    &&& b.settings == a.settings
    &&& b.snapshot == a.snapshot
    &&& b.transitions@ == a.transitions@
    &&& b.in_flight == a.in_flight
    &&& b.last_update_check_ms == a.last_update_check_ms
    &&& b.pending_update_version == a.pending_update_version
    &&& b.updater == a.updater
    &&& b.background_notified_update_version == a.background_notified_update_version
    &&& b.installation_id == a.installation_id
    &&& b.last_usage_heartbeat_at_ms == a.last_usage_heartbeat_at_ms
    &&& b.sentry_dsn == a.sentry_dsn
}

pub open spec fn line(level: LogLevel, message: Seq<char>) -> (Seq<char>, Seq<char>) {
    (level_name(level), message)
}

/// The newest `cap` items of `s`.
pub open spec fn keep_newest<T>(s: Seq<T>, cap: nat) -> Seq<T> {
    if s.len() > cap {
        s.subrange(s.len() - cap, s.len() as int)
    } else {
        s
    }
}

/// Whether log `new` is log `old` with zero or more entries appended, and only
/// the newest `LOG_LIMIT` entries kept: every retained entry of `old` is kept
/// whole, timestamp included, and in place.
pub open spec fn log_kept(old: Seq<LogEntry>, new: Seq<LogEntry>) -> bool {
    ||| new == old
    ||| exists|added: Seq<LogEntry>|
        added.len() > 0 && new == keep_newest(old + added, LOG_LIMIT as nat)
}

/// Keeping the newest items, then appending and keeping again, is appending
/// and keeping once.
pub proof fn lemma_keep_newest_push<T>(s: Seq<T>, x: T, cap: nat)
    requires
        cap > 0,
    ensures
        ring_push(keep_newest(s, cap), x, cap) == keep_newest(s.push(x), cap),
{
    let k = keep_newest(s, cap);
    let t = s.push(x);
    if s.len() > cap {
        assert(k.push(x).subrange(k.push(x).len() - cap, k.push(x).len() as int) =~= t.subrange(
            t.len() - cap,
            t.len() as int,
        ));
    }
}

/// Appending one more entry to a log that was kept from `old` keeps it from `old`.
pub proof fn lemma_log_kept_push(old: Seq<LogEntry>, mid: Seq<LogEntry>, x: LogEntry)
    requires
        log_kept(old, mid),
    ensures
        log_kept(old, ring_push(mid, x, LOG_LIMIT as nat)),
{
    if mid == old {
        assert(old + seq![x] =~= old.push(x));
        assert(ring_push(mid, x, LOG_LIMIT as nat) == keep_newest(old + seq![x], LOG_LIMIT as nat));
    } else {
        let added = choose|added: Seq<LogEntry>|
            added.len() > 0 && mid == keep_newest(old + added, LOG_LIMIT as nat);
        lemma_keep_newest_push(old + added, x, LOG_LIMIT as nat);
        assert((old + added).push(x) =~= old + added.push(x));
        assert(ring_push(mid, x, LOG_LIMIT as nat) == keep_newest(old + added.push(x), LOG_LIMIT as nat));
    }
}

impl RuntimeState {
    /// The state's log, as (level, message) lines.
    pub open spec fn lines(&self) -> Seq<(Seq<char>, Seq<char>)> {
        log_lines(self.logs@)
    }

    /// Appends a line to the diagnostics log, stamped with the current time,
    /// keeping the newest `LOG_LIMIT` lines.
    pub fn push_log(&mut self, level: LogLevel, message: String)
        ensures
            same_but_logs(*old(self), *final(self)),
            final(self).logs@ == ring_push(old(self).logs@, final(self).logs@.last(), LOG_LIMIT as nat),
            final(self).logs@.last().level@ == level_name(level),
            final(self).logs@.last().message@ == message@,
            final(self).lines() == ring_push(old(self).lines(), line(level, message@), LOG_LIMIT as nat),
            forall|o: Seq<LogEntry>|
                log_kept(o, old(self).logs@) ==> #[trigger] log_kept(o, final(self).logs@),
    {
        let entry = LogEntry { timestamp_ms: now_ms(), level: level_string(level), message };
        let ghost e = entry;
        ring_push_back(&mut self.logs, entry, LOG_LIMIT);
        proof {
            lemma_ring_push_bounded(old(self).logs@, e, LOG_LIMIT as nat);
            lemma_ring_push_map(
                old(self).logs@,
                e,
                LOG_LIMIT as nat,
                |x: LogEntry| (x.level@, x.message@),
            );
            assert forall|o: Seq<LogEntry>|
                log_kept(o, old(self).logs@) implies #[trigger] log_kept(o, self.logs@) by {
                lemma_log_kept_push(o, old(self).logs@, e);
            }
        }
    }
}

/// What is saved to disk between runs.
#[derive(Debug, Clone)]
pub struct PersistentData {
    pub settings: AppSettings,
    pub snapshot: RuntimeSnapshot,
    pub transitions: Vec<TransitionEntry>,
    pub installation_id: Option<String>,
    pub last_usage_heartbeat_at_ms: Option<u64>,
}

impl Default for PersistentData {
    fn default() -> (r: Self)
        ensures
            r.settings@ == crate::settings::default_settings(),
            r.snapshot.last_known_state is None,
            r.snapshot.last_success_at is None,
            r.snapshot.consecutive_failures == 0,
            r.snapshot.last_error_summary is None,
            r.transitions@.len() == 0,
            r.installation_id is None,
            r.last_usage_heartbeat_at_ms is None,
    {
        PersistentData {
            settings: AppSettings::default(),
            snapshot: RuntimeSnapshot::default(),
            transitions: Vec::new(),
            installation_id: None,
            last_usage_heartbeat_at_ms: None,
        }
    }
}

/// Whether `s` is a UUID in the hyphenated lowercase form of version 4:
/// 36 characters, hyphens at 8, 13, 18 and 23, lowercase hex digits
/// elsewhere, and the version digit `4` at 14.
pub open spec fn is_v4_uuid_text(s: Seq<char>) -> bool {
    &&& s.len() == 36
    &&& forall|i: int|
        0 <= i < 36 ==> if i == 8 || i == 13 || i == 18 || i == 23 {
            s[i] == '-'
        } else {
            ('0' <= #[trigger] s[i] <= '9') || ('a' <= s[i] <= 'f')
        }
    &&& s[14] == '4'
}

/// `uuid::Uuid::new_v4().to_string()`: a random version-4 UUID in its
/// hyphenated lowercase form. Only the shape of the text is stated.
#[verifier::external_body]
fn default_installation_id() -> (id: String)
    ensures
        is_v4_uuid_text(id@),
{
    uuid::Uuid::new_v4().to_string()
}

/// The stored installation id, or a fresh random one when none was stored.
pub fn resolve_installation_id(stored: Option<String>) -> (r: String)
    ensures
        match stored {
            Some(id) => r == id,
            None => is_v4_uuid_text(r@),
        },
{
    match stored {
        Some(id) => id,
        None => default_installation_id(),
    }
}

fn vec_to_deque<T>(v: Vec<T>) -> (q: VecDeque<T>)
    ensures
        q@ == v@,
{
    let mut v = v;
    let ghost orig = v@;
    let mut q: VecDeque<T> = VecDeque::new();
    while v.len() > 0
        invariant
            q@ + v@ == orig,
        decreases v@.len(),
    {
        let x = v.remove(0);
        q.push_back(x);
    }
    assert(q@ + v@ == q@);
    q
}

impl RuntimeState {
    /// The state at startup, from what was saved: settings are sanitized,
    /// the installation id is kept or freshly made, and two lines are logged.
    pub fn start(persistent: PersistentData, sentry_dsn: Option<String>, backend: HttpBackend) -> (r:
        RuntimeState)
        ensures
            r.settings@ == sanitized(persistent.settings@),
            r.snapshot == persistent.snapshot,
            r.transitions@ == persistent.transitions@,
            r.lines() == seq![
                line(LogLevel::Info, "ResetPing started"@),
                line(LogLevel::Info, "HTTP backend selected: "@ + http_backend_name(backend)),
            ],
            !r.in_flight,
            r.last_update_check_ms is None,
            r.pending_update_version is None,
            r.updater is None,
            r.background_notified_update_version is None,
            match persistent.installation_id {
                Some(id) => r.installation_id == id,
                None => is_v4_uuid_text(r.installation_id@),
            },
            r.last_usage_heartbeat_at_ms == persistent.last_usage_heartbeat_at_ms,
            r.sentry_dsn == sentry_dsn,
    {
        let mut state = RuntimeState {
            settings: sanitize_settings(persistent.settings),
            snapshot: persistent.snapshot,
            transitions: vec_to_deque(persistent.transitions),
            logs: VecDeque::new(),
            in_flight: false,
            last_update_check_ms: None,
            pending_update_version: None,
            updater: None,
            background_notified_update_version: None,
            installation_id: resolve_installation_id(persistent.installation_id),
            last_usage_heartbeat_at_ms: persistent.last_usage_heartbeat_at_ms,
            sentry_dsn,
        };
        state.push_log(LogLevel::Info, String::from_str("ResetPing started"));
        let mut m = String::from_str("HTTP backend selected: ");
        m.append(http_backend_label(backend));
        state.push_log(LogLevel::Info, m);
        assert(state.lines() =~= seq![
            line(LogLevel::Info, "ResetPing started"@),
            line(LogLevel::Info, "HTTP backend selected: "@ + http_backend_name(backend)),
        ]);
        state
    }
}


impl RuntimeSnapshot {
    pub fn duplicate(&self) -> (r: RuntimeSnapshot)
        ensures
            r == *self,
    {
        RuntimeSnapshot {
            last_known_state: copy_opt_string(&self.last_known_state),
            last_success_at: self.last_success_at,
            consecutive_failures: self.consecutive_failures,
            last_error_summary: copy_opt_string(&self.last_error_summary),
        }
    }
}

impl TransitionEntry {
    pub fn duplicate(&self) -> (r: TransitionEntry)
        ensures
            r == *self,
    {
        TransitionEntry {
            from: self.from.clone(),
            to: self.to.clone(),
            detected_at: self.detected_at,
            source_updated_at: self.source_updated_at,
        }
    }
}

impl LogEntry {
    pub fn duplicate(&self) -> (r: LogEntry)
        ensures
            r == *self,
    {
        LogEntry {
            timestamp_ms: self.timestamp_ms,
            level: self.level.clone(),
            message: self.message.clone(),
        }
    }
}

/// The transitions, oldest first.
pub fn transitions_to_vec(q: &VecDeque<TransitionEntry>) -> (v: Vec<TransitionEntry>)
    ensures
        v@ == q@,
{
    let mut v: Vec<TransitionEntry> = Vec::new();
    let mut i: usize = 0;
    while i < q.len()
        invariant
            i <= q@.len(),
            v@ == q@.take(i as int),
        decreases q@.len() - i,
    {
        v.push(q[i].duplicate());
        assert(q@.take(i + 1) == q@.take(i as int).push(q@[i as int]));
        i = i + 1;
    }
    assert(q@.take(q@.len() as int) == q@);
    v
}

/// The log lines, oldest first.
pub fn logs_to_vec(q: &VecDeque<LogEntry>) -> (v: Vec<LogEntry>)
    ensures
        v@ == q@,
{
    let mut v: Vec<LogEntry> = Vec::new();
    let mut i: usize = 0;
    while i < q.len()
        invariant
            i <= q@.len(),
            v@ == q@.take(i as int),
        decreases q@.len() - i,
    {
        v.push(q[i].duplicate());
        assert(q@.take(i + 1) == q@.take(i as int).push(q@[i as int]));
        i = i + 1;
    }
    assert(q@.take(q@.len() as int) == q@);
    v
}

/// Whether the endpoint counts as degraded: it failed at least
/// `FAILURE_THRESHOLD` times in a row.
pub open spec fn degraded(s: RuntimeSnapshot) -> bool {
    s.consecutive_failures >= FAILURE_THRESHOLD
}

pub fn is_degraded(snapshot: &RuntimeSnapshot) -> (r: bool)
    ensures
        r == degraded(*snapshot),
{
    snapshot.consecutive_failures >= FAILURE_THRESHOLD
}

pub open spec fn health_text(s: RuntimeSnapshot) -> Seq<char> {
    if degraded(s) {
        "degraded"@
    } else {
        "healthy"@
    }
}

/// `degraded` or `healthy`.
pub fn health_label(snapshot: &RuntimeSnapshot) -> (r: String)
    ensures
        r@ == health_text(*snapshot),
{
    if is_degraded(snapshot) {
        String::from_str("degraded")
    } else {
        String::from_str("healthy")
    }
}

/// The last known state, or `unknown`.
pub open spec fn state_text(s: RuntimeSnapshot) -> Seq<char> {
    match s.last_known_state {
        Some(x) => x@,
        None => "unknown"@,
    }
}

/// The time of the last successful poll in decimal milliseconds, or `never`.
pub open spec fn last_success_text(s: RuntimeSnapshot) -> Seq<char> {
    match s.last_success_at {
        Some(v) => decimal(v as nat),
        None => "never"@,
    }
}

fn push_state(m: &mut String, snapshot: &RuntimeSnapshot)
    ensures
        final(m)@ == old(m)@ + state_text(*snapshot),
{
    match &snapshot.last_known_state {
        Some(x) => m.append(x.as_str()),
        None => m.append("unknown"),
    }
}

fn push_last_success(m: &mut String, snapshot: &RuntimeSnapshot)
    ensures
        final(m)@ == old(m)@ + last_success_text(*snapshot),
{
    match snapshot.last_success_at {
        Some(v) => push_decimal(m, v),
        None => m.append("never"),
    }
}

/// One line summarizing the snapshot.
pub open spec fn status_line(s: RuntimeSnapshot) -> Seq<char> {
    "State: "@ + state_text(s) + " | Health: "@ + health_text(s) + " | Last success: "@
        + last_success_text(s)
}

pub fn build_status_line(snapshot: &RuntimeSnapshot) -> (r: String)
    ensures
        r@ == status_line(*snapshot),
{
    let mut m = String::from_str("State: ");
    push_state(&mut m, snapshot);
    m.append(" | Health: ");
    let h = health_label(snapshot);
    m.append(h.as_str());
    m.append(" | Last success: ");
    push_last_success(&mut m, snapshot);
    m
}

/// The tray icon's tooltip, with the state in upper case.
pub open spec fn tooltip_text(s: RuntimeSnapshot) -> Seq<char> {
    "ResetPing\nStatus: "@ + uppercase_of(state_text(s)) + "\nLast success: "@ + last_success_text(s)
        + "\nHealth: "@ + health_text(s)
}

pub fn tray_tooltip(snapshot: &RuntimeSnapshot) -> (r: String)
    ensures
        r@ == tooltip_text(*snapshot),
{
    let mut state = String::new();
    push_state(&mut state, snapshot);
    let upper = to_uppercase(state.as_str());
    let mut m = String::from_str("ResetPing\nStatus: ");
    m.append(upper.as_str());
    m.append("\nLast success: ");
    push_last_success(&mut m, snapshot);
    m.append("\nHealth: ");
    let h = health_label(snapshot);
    m.append(h.as_str());
    m
}

/// A desktop notification to show.
#[derive(Debug, Clone)]
pub struct Notification {
    pub title: String,
    pub body: String,
}

/// The notification sent on request, to show that notifications work.
pub fn test_notification(snapshot: &RuntimeSnapshot) -> (r: Notification)
    ensures
        r.title@ == "ResetPing: notification test"@,
        r.body@ == "Notifications are working. "@ + status_line(*snapshot),
{
    let line = build_status_line(snapshot);
    let mut body = String::from_str("Notifications are working. ");
    body.append(line.as_str());
    Notification { title: String::from_str("ResetPing: notification test"), body }
}

/// Everything the settings window shows.
#[derive(Debug, Clone)]
pub struct AppStateResponse {
    pub settings: AppSettings,
    pub snapshot: RuntimeSnapshot,
    pub transitions: Vec<TransitionEntry>,
    pub logs: Vec<LogEntry>,
    pub health: String,
    pub installation_id: String,
    pub frontend_telemetry_dsn: Option<String>,
    pub updater: Option<UpdateCheckResponse>,
}

impl RuntimeState {
    /// What the settings window shows of the state.
    pub fn app_state(&self) -> (r: AppStateResponse)
        ensures
            r.settings == self.settings,
            r.snapshot == self.snapshot,
            r.transitions@ == self.transitions@,
            r.logs@ == self.logs@,
            r.health@ == health_text(self.snapshot),
            r.installation_id == self.installation_id,
            r.frontend_telemetry_dsn == self.sentry_dsn,
            r.updater == self.updater,
    {
        AppStateResponse {
            settings: self.settings.duplicate(),
            snapshot: self.snapshot.duplicate(),
            transitions: transitions_to_vec(&self.transitions),
            logs: logs_to_vec(&self.logs),
            health: health_label(&self.snapshot),
            installation_id: self.installation_id.clone(),
            frontend_telemetry_dsn: copy_opt_string(&self.sentry_dsn),
            updater: copy_opt_response(&self.updater),
        }
    }

    /// The diagnostics log, oldest first.
    pub fn recent_logs(&self) -> (r: Vec<LogEntry>)
        ensures
            r@ == self.logs@,
    {
        logs_to_vec(&self.logs)
    }

    /// What is saved to disk of the state.
    pub fn persistent_data(&self) -> (r: PersistentData)
        ensures
            r.settings == self.settings,
            r.snapshot == self.snapshot,
            r.transitions@ == self.transitions@,
            r.installation_id == Some(self.installation_id),
            r.last_usage_heartbeat_at_ms == self.last_usage_heartbeat_at_ms,
    {
        PersistentData {
            settings: self.settings.duplicate(),
            snapshot: self.snapshot.duplicate(),
            transitions: transitions_to_vec(&self.transitions),
            installation_id: Some(self.installation_id.clone()),
            last_usage_heartbeat_at_ms: self.last_usage_heartbeat_at_ms,
        }
    }
}

} // verus!
