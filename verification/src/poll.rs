//! The poll engine's decisions. A poll is `begin_poll`, the fetch (done by the
//! caller), then either `record_poll_success` and `conclude_poll_success`, or
//! `record_poll_failure` and `conclude_poll_failure`; between the two halves
//! the caller sends the telemetry event the first half described, if any.
use vstd::prelude::*;
use vstd::string::*;

use crate::runtime::{
    degraded, log_kept, line, ring_push, ring_push_back, LogLevel, Notification, RuntimeSnapshot, RuntimeState,
    TransitionEntry, FAILURE_THRESHOLD, LOG_LIMIT, TRANSITIONS_LIMIT,
};
use crate::settings::NotificationPolicy;
use crate::status::{FetchTransport, NormalizedStatus};
use crate::telemetry::{
    error_report, error_reporting_on, failure_milestone, is_error_report, is_message_report,
    is_usage_report, message_report, should_emit_poll_failure_telemetry, usage_report,
    usage_reporting_on, TelemetryLevel, TelemetryReport,
};
use crate::text::{decimal, push_decimal, text_eq};

verus! {

/// The log with line `l` appended.
pub open spec fn push_line(lines: Seq<(Seq<char>, Seq<char>)>, l: (Seq<char>, Seq<char>)) -> Seq<
    (Seq<char>, Seq<char>),
> {
    ring_push(lines, l, LOG_LIMIT as nat)
}

/// The log with line `l` appended when `c` holds.
pub open spec fn push_line_if(
    lines: Seq<(Seq<char>, Seq<char>)>,
    c: bool,
    l: (Seq<char>, Seq<char>),
) -> Seq<(Seq<char>, Seq<char>)> {
    if c {
        push_line(lines, l)
    } else {
        lines
    }
}

/// Whether `b` keeps the settings and the update, identity and telemetry
/// fields of `a`: all but the snapshot, the in-flight flag, the transition
/// history and the log.
pub open spec fn keeps_config(a: RuntimeState, b: RuntimeState) -> bool {
    &&& b.settings == a.settings
    &&& b.last_update_check_ms == a.last_update_check_ms
    &&& b.pending_update_version == a.pending_update_version
    &&& b.updater == a.updater
    &&& b.background_notified_update_version == a.background_notified_update_version
    &&& b.installation_id == a.installation_id
    &&& b.last_usage_heartbeat_at_ms == a.last_usage_heartbeat_at_ms
    &&& b.sentry_dsn == a.sentry_dsn
}

/// `true` or `false`.
pub open spec fn bool_text(b: bool) -> Seq<char> {
    if b {
        "true"@
    } else {
        "false"@
    }
}

/// The line logged when a poll starts.
pub open spec fn poll_start_line(reason: Seq<char>, url: Seq<char>) -> (Seq<char>, Seq<char>) {
    line(LogLevel::Info, "Polling status ("@ + reason + ") from "@ + url)
}

/// The line logged for a successful fetch, naming the transport used.
pub open spec fn transport_line(t: FetchTransport) -> (Seq<char>, Seq<char>) {
    match t {
        FetchTransport::CurlFallback => line(
            LogLevel::Warn,
            "Polling succeeded via curl fallback (reqwest connect failed)"@,
        ),
        FetchTransport::Reqwest => line(LogLevel::Info, "Polling succeeded via reqwest"@),
    }
}

/// The snapshot after a successful poll: the new state, its time, and the
/// failure streak and last error cleared.
pub open spec fn snapshot_after_success(status: NormalizedStatus) -> RuntimeSnapshot {
    RuntimeSnapshot {
        last_known_state: Some(status.effective_state),
        last_success_at: Some(status.fetched_at_ms),
        consecutive_failures: 0,
        last_error_summary: None,
    }
}

/// The first half of a successful poll, as the second half needs it.
pub struct PollSuccess {
    /// The state known before this poll.
    pub previous_state: Option<String>,
    /// The failure streak this poll ended.
    pub previous_failures: u32,
    /// The event reporting that a failure streak ended, when one did and
    /// error telemetry may be sent.
    pub recovery_report: Option<TelemetryReport>,
}

/// The side effects a concluded poll asks for.
pub struct PollActions {
    pub notification: Option<Notification>,
    pub usage_report: Option<TelemetryReport>,
}

/// Whether a change to state `current` is notified under `policy`.
pub open spec fn notifies_change(policy: NotificationPolicy, current: Seq<char>) -> bool {
    match policy {
        NotificationPolicy::Flip => true,
        NotificationPolicy::NoToYes => current == "yes"@,
    }
}

pub open spec fn change_body(prev: Seq<char>, current: Seq<char>) -> Seq<char> {
    "Codex reset status changed from "@ + prev + " to "@ + current + "."@
}

pub open spec fn change_line(prev: Seq<char>, current: Seq<char>, configured: bool) -> (
    Seq<char>,
    Seq<char>,
) {
    line(
        LogLevel::Info,
        "State transition detected: "@ + prev + " -> "@ + current + " (configured="@ + bool_text(
            configured,
        ) + ")"@,
    )
}

pub open spec fn initial_line(current: Seq<char>) -> (Seq<char>, Seq<char>) {
    line(LogLevel::Info, "Initial state detected: "@ + current)
}

pub open spec fn initial_body(current: Seq<char>) -> Seq<char> {
    "Current Codex reset status is "@ + current + "."@
}

fn push_bool(m: &mut String, b: bool)
    ensures
        final(m)@ == old(m)@ + bool_text(b),
{
    if b {
        m.append("true");
    } else {
        m.append("false");
    }
}

/// What recording a successful fetch does: the poll is no longer in flight,
/// the transport is logged, and the snapshot takes the new state with the
/// failure streak cleared; a recovery event is described when a streak
/// ended and error telemetry may be sent.
pub open spec fn success_recorded(
    a: RuntimeState,
    b: RuntimeState,
    status: NormalizedStatus,
    client_ready: bool,
    r: PollSuccess,
) -> bool {
    &&& keeps_config(a, b)
    &&& b.transitions@ == a.transitions@
    &&& !b.in_flight
    &&& log_kept(a.logs@, b.logs@)
    &&& b.snapshot == snapshot_after_success(status)
    &&& !degraded(b.snapshot)
    &&& b.lines() == push_line(a.lines(), transport_line(status.transport))
    &&& r.previous_state == a.snapshot.last_known_state
    &&& r.previous_failures == a.snapshot.consecutive_failures
    &&& (r.recovery_report is Some <==> (a.snapshot.consecutive_failures > 0 && error_reporting_on(
        a.settings,
        client_ready,
    )))
    &&& (r.recovery_report matches Some(rep) ==> is_message_report(
        rep,
        "failure_streak_recovered"@,
        "poll_engine"@,
        TelemetryLevel::Info,
        "Polling recovered after "@ + decimal(a.snapshot.consecutive_failures as nat)
            + " consecutive failures"@,
    ))
}

/// The log after the id of a sent recovery event, if any, is logged.
pub open spec fn with_recovery_id(
    lines: Seq<(Seq<char>, Seq<char>)>,
    recovery_event_id: Option<String>,
) -> Seq<(Seq<char>, Seq<char>)> {
    match recovery_event_id {
        Some(id) => push_line(lines, line(LogLevel::Info, "Telemetry recovery event sent: "@ + id@)),
        None => lines,
    }
}

/// What concluding a successful poll does. The id of a sent recovery event
/// is logged. A state that differs from the previous one is a transition: it
/// joins the bounded history, is logged, is described as a usage event when
/// usage telemetry may be sent, and is notified as the policy says. An equal
/// state changes nothing more. A first state is logged and notified when the
/// user asked to hear of the initial state.
pub open spec fn success_concluded(
    a: RuntimeState,
    b: RuntimeState,
    previous_state: Option<String>,
    status: NormalizedStatus,
    recovery_event_id: Option<String>,
    client_ready: bool,
    r: PollActions,
) -> bool {
    let current = status.effective_state@;
    let l1 = with_recovery_id(a.lines(), recovery_event_id);
    &&& keeps_config(a, b)
    &&& b.snapshot == a.snapshot
    &&& b.in_flight == a.in_flight
    &&& log_kept(a.logs@, b.logs@)
    &&& match previous_state {
        Some(prev) => if prev@ != current {
            &&& b.transitions@ == ring_push(
                a.transitions@,
                TransitionEntry {
                    from: prev,
                    to: status.effective_state,
                    detected_at: status.fetched_at_ms,
                    source_updated_at: status.source_timestamp_ms,
                },
                TRANSITIONS_LIMIT as nat,
            )
            &&& b.transitions@.len() <= TRANSITIONS_LIMIT
            &&& b.lines() == push_line(l1, change_line(prev@, current, status.configured))
            &&& (r.notification is Some <==> notifies_change(a.settings.notification_policy, current))
            &&& (r.notification matches Some(n) ==> n.title@ == "ResetPing: status changed"@
                && n.body@ == change_body(prev@, current))
            &&& (r.usage_report is Some <==> usage_reporting_on(a.settings, client_ready))
            &&& (r.usage_report matches Some(rep) ==> is_usage_report(
                rep,
                "transition_detected"@,
                "poll_engine"@,
                "State transition detected: "@ + prev@ + " -> "@ + current,
            ))
        } else {
            &&& b.transitions@ == a.transitions@
            &&& b.lines() == l1
            &&& r.notification is None
            &&& r.usage_report is None
        },
        None => {
            &&& b.transitions@ == a.transitions@
            &&& b.lines() == push_line(l1, initial_line(current))
            &&& (r.notification is Some <==> a.settings.notify_initial_state)
            &&& (r.notification matches Some(n) ==> n.title@ == "ResetPing: initial status"@
                && n.body@ == initial_body(current))
            &&& r.usage_report is None
        },
    }
}

/// What recording a failed fetch does: the poll is no longer in flight, the
/// failure streak grows by one (saturating), the error is kept, and the known
/// state and last success stay; at a reported streak length an error message
/// event is described, if error telemetry may be sent.
pub open spec fn failure_recorded(
    a: RuntimeState,
    b: RuntimeState,
    error: String,
    client_ready: bool,
    r: Option<TelemetryReport>,
) -> bool {
    &&& keeps_config(a, b)
    &&& b.transitions@ == a.transitions@
    &&& b.logs@ == a.logs@
    &&& !b.in_flight
    &&& b.snapshot.consecutive_failures == a.snapshot.consecutive_failures.saturating_add(1)
    &&& b.snapshot.last_error_summary == Some(error)
    &&& b.snapshot.last_known_state == a.snapshot.last_known_state
    &&& b.snapshot.last_success_at == a.snapshot.last_success_at
    &&& (r is Some <==> (failure_milestone(b.snapshot.consecutive_failures) && error_reporting_on(
        a.settings,
        client_ready,
    )))
    &&& (r matches Some(rep) ==> is_message_report(
        rep,
        "error"@,
        "poll_engine"@,
        TelemetryLevel::Error,
        "Polling failed (consecutive="@ + decimal(b.snapshot.consecutive_failures as nat) + "): "@
            + error@,
    ))
}

impl RuntimeState {
    /// Starts a poll unless one is in flight; a started poll is marked in
    /// flight and logged with its reason and endpoint.
    pub fn begin_poll(&mut self, reason: &str) -> (started: bool)
        ensures
            started == !old(self).in_flight,
            !started ==> *final(self) == *old(self),
            started ==> {
                &&& final(self).in_flight
                &&& keeps_config(*old(self), *final(self))
                &&& log_kept(old(self).logs@, final(self).logs@)
                &&& final(self).snapshot == old(self).snapshot
                &&& final(self).transitions@ == old(self).transitions@
                &&& final(self).lines() == push_line(
                    old(self).lines(),
                    poll_start_line(reason@, old(self).settings.status_endpoint_url@),
                )
            },
    {
        if self.in_flight {
            return false;
        }
        self.in_flight = true;
        let mut m = String::from_str("Polling status (");
        m.append(reason);
        m.append(") from ");
        m.append(self.settings.status_endpoint_url.as_str());
        self.push_log(LogLevel::Info, m);
        true
    }

    /// Records a successful fetch: the poll is no longer in flight, the
    /// transport is logged, and the snapshot takes the new state with the
    /// failure streak cleared.
    pub fn record_poll_success(&mut self, status: &NormalizedStatus, client_ready: bool) -> (r:
        PollSuccess)
        ensures
            success_recorded(*old(self), *final(self), *status, client_ready, r),
    {
        self.in_flight = false;
        match status.transport {
            FetchTransport::CurlFallback => {
                self.push_log(
                    LogLevel::Warn,
                    String::from_str("Polling succeeded via curl fallback (reqwest connect failed)"),
                );
            },
            FetchTransport::Reqwest => {
                self.push_log(LogLevel::Info, String::from_str("Polling succeeded via reqwest"));
            },
        }
        let previous_state = self.snapshot.last_known_state.take();
        let previous_failures = self.snapshot.consecutive_failures;
        self.snapshot.last_success_at = Some(status.fetched_at_ms);
        self.snapshot.consecutive_failures = 0;
        self.snapshot.last_error_summary = None;
        self.snapshot.last_known_state = Some(status.effective_state.clone());
        let recovery_report = if previous_failures > 0 {
            let mut m = String::from_str("Polling recovered after ");
            push_decimal(&mut m, previous_failures as u64);
            m.append(" consecutive failures");
            message_report(
                &self.settings,
                client_ready,
                "failure_streak_recovered",
                "poll_engine",
                TelemetryLevel::Info,
                m.as_str(),
            )
        } else {
            None
        };
        PollSuccess { previous_state, previous_failures, recovery_report }
    }

    /// Concludes a successful poll. The id of a sent recovery event is
    /// logged. A state that differs from the previous one is a transition:
    /// it joins the bounded history, is logged, is reported as usage, and is
    /// notified as the policy says. A first state is logged and notified when
    /// the user asked to hear of the initial state.
    pub fn conclude_poll_success(
        &mut self,
        previous_state: Option<String>,
        status: &NormalizedStatus,
        recovery_event_id: Option<String>,
        client_ready: bool,
    ) -> (r: PollActions)
        ensures
            success_concluded(
                *old(self),
                *final(self),
                previous_state,
                *status,
                recovery_event_id,
                client_ready,
                r,
            ),
    {
        if let Some(id) = recovery_event_id {
            let mut m = String::from_str("Telemetry recovery event sent: ");
            m.append(id.as_str());
            self.push_log(LogLevel::Info, m);
        }
        let current = &status.effective_state;
        match previous_state {
            Some(prev) => {
                if prev == *current {
                    return PollActions { notification: None, usage_report: None };
                }
                let entry = TransitionEntry {
                    from: prev.clone(),
                    to: current.clone(),
                    detected_at: status.fetched_at_ms,
                    source_updated_at: status.source_timestamp_ms,
                };
                let ghost e = entry;
                ring_push_back(&mut self.transitions, entry, TRANSITIONS_LIMIT);
                proof {
                    crate::runtime::lemma_ring_push_bounded(
                        old(self).transitions@,
                        e,
                        TRANSITIONS_LIMIT as nat,
                    );
                }
                let should_notify = match self.settings.notification_policy {
                    NotificationPolicy::Flip => true,
                    NotificationPolicy::NoToYes => text_eq(current.as_str(), "yes"),
                };
                let notification = if should_notify {
                    let mut body = String::from_str("Codex reset status changed from ");
                    body.append(prev.as_str());
                    body.append(" to ");
                    body.append(current.as_str());
                    body.append(".");
                    Some(
                        Notification {
                            title: String::from_str("ResetPing: status changed"),
                            body,
                        },
                    )
                } else {
                    None
                };
                let mut usage_msg = String::from_str("State transition detected: ");
                usage_msg.append(prev.as_str());
                usage_msg.append(" -> ");
                usage_msg.append(current.as_str());
                let usage = usage_report(
                    &self.settings,
                    client_ready,
                    "transition_detected",
                    "poll_engine",
                    usage_msg.as_str(),
                );
                let mut m = String::from_str("State transition detected: ");
                m.append(prev.as_str());
                m.append(" -> ");
                m.append(current.as_str());
                m.append(" (configured=");
                push_bool(&mut m, status.configured);
                m.append(")");
                self.push_log(LogLevel::Info, m);
                PollActions { notification, usage_report: usage }
            },
            None => {
                let mut m = String::from_str("Initial state detected: ");
                m.append(current.as_str());
                self.push_log(LogLevel::Info, m);
                let notification = if self.settings.notify_initial_state {
                    let mut body = String::from_str("Current Codex reset status is ");
                    body.append(current.as_str());
                    body.append(".");
                    Some(
                        Notification {
                            title: String::from_str("ResetPing: initial status"),
                            body,
                        },
                    )
                } else {
                    None
                };
                PollActions { notification, usage_report: None }
            },
        }
    }

    /// Records a failed fetch: the poll is no longer in flight, the failure
    /// streak grows by one (saturating) and the error is kept. A failure at
    /// one of the reported streak lengths yields an error message event.
    pub fn record_poll_failure(&mut self, error: String, client_ready: bool) -> (r: Option<
        TelemetryReport,
    >)
        ensures
            failure_recorded(*old(self), *final(self), error, client_ready, r),
    {
        self.in_flight = false;
        let failures = self.snapshot.consecutive_failures.saturating_add(1);
        self.snapshot.consecutive_failures = failures;
        let report = if should_emit_poll_failure_telemetry(failures) {
            let mut m = String::from_str("Polling failed (consecutive=");
            push_decimal(&mut m, failures as u64);
            m.append("): ");
            m.append(error.as_str());
            message_report(
                &self.settings,
                client_ready,
                "error",
                "poll_engine",
                TelemetryLevel::Error,
                m.as_str(),
            )
        } else {
            None
        };
        self.snapshot.last_error_summary = Some(error);
        report
    }

    /// Concludes a failed poll: the id of a sent error event is logged, then
    /// the failure, then a warning when the streak just reached the
    /// degraded threshold.
    pub fn conclude_poll_failure(&mut self, error: &str, error_event_id: Option<String>)
        ensures
            keeps_config(*old(self), *final(self)),
            final(self).snapshot == old(self).snapshot,
            final(self).in_flight == old(self).in_flight,
            final(self).transitions@ == old(self).transitions@,
            log_kept(old(self).logs@, final(self).logs@),
            ({
                let l1 = match error_event_id {
                    Some(id) => push_line(
                        old(self).lines(),
                        line(LogLevel::Info, "Telemetry error event sent: "@ + id@),
                    ),
                    None => old(self).lines(),
                };
                let l2 = push_line(l1, line(LogLevel::Error, "Polling failed: "@ + error@));
                final(self).lines() == push_line_if(
                    l2,
                    old(self).snapshot.consecutive_failures == FAILURE_THRESHOLD,
                    line(
                        LogLevel::Warn,
                        "Endpoint health degraded after "@ + decimal(FAILURE_THRESHOLD as nat)
                            + " consecutive failures"@,
                    ),
                )
            }),
    {
        if let Some(id) = error_event_id {
            let mut m = String::from_str("Telemetry error event sent: ");
            m.append(id.as_str());
            self.push_log(LogLevel::Info, m);
        }
        let mut m = String::from_str("Polling failed: ");
        m.append(error);
        self.push_log(LogLevel::Error, m);
        if self.snapshot.consecutive_failures == FAILURE_THRESHOLD {
            let mut w = String::from_str("Endpoint health degraded after ");
            push_decimal(&mut w, FAILURE_THRESHOLD as u64);
            w.append(" consecutive failures");
            self.push_log(LogLevel::Warn, w);
        }
    }

    /// Records that saving the state after a poll failed: the failure is
    /// logged, and an error event describes it if error telemetry may be sent.
    pub fn record_persist_failure(&mut self, error: &str, client_ready: bool) -> (r: Option<
        TelemetryReport,
    >)
        ensures
            crate::runtime::same_but_logs(*old(self), *final(self)),
            log_kept(old(self).logs@, final(self).logs@),
            final(self).lines() == push_line(
                old(self).lines(),
                line(LogLevel::Error, "Failed to persist state: "@ + error@),
            ),
            r is Some <==> error_reporting_on(old(self).settings, client_ready),
            r matches Some(rep) ==> is_error_report(
                rep,
                "state_store"@,
                "persist_failed"@,
                "State persistence failed after poll: "@ + error@,
            ),
    {
        let mut m = String::from_str("Failed to persist state: ");
        m.append(error);
        self.push_log(LogLevel::Error, m);
        let mut t = String::from_str("State persistence failed after poll: ");
        t.append(error);
        error_report(&self.settings, client_ready, "state_store", "persist_failed", t.as_str())
    }
}


/// A poll that sees the state the previous successful poll saw records no
/// transition and raises no notification or usage event, whatever happened
/// in between that left the snapshot alone (such as starting the poll).
pub proof fn lemma_repeated_state_is_silent(
    s0: RuntimeState,
    s1: RuntimeState,
    s2: RuntimeState,
    s3: RuntimeState,
    s4: RuntimeState,
    s5: RuntimeState,
    first: NormalizedStatus,
    second: NormalizedStatus,
    r1: PollSuccess,
    a1: PollActions,
    r2: PollSuccess,
    a2: PollActions,
    id1: Option<String>,
    id2: Option<String>,
    ready: bool,
)
    requires
        success_recorded(s0, s1, first, ready, r1),
        success_concluded(s1, s2, r1.previous_state, first, id1, ready, a1),
        s3.snapshot == s2.snapshot,
        success_recorded(s3, s4, second, ready, r2),
        success_concluded(s4, s5, r2.previous_state, second, id2, ready, a2),
        second.effective_state@ == first.effective_state@,
    ensures
        s5.transitions@ == s3.transitions@,
        a2.notification is None,
        a2.usage_report is None,
{
}

/// A successful poll hands on the state known before it as the previous
/// state, whatever the failure streak.
pub proof fn lemma_success_hands_on_known_state(
    a: RuntimeState,
    b: RuntimeState,
    status: NormalizedStatus,
    ready: bool,
    r: PollSuccess,
)
    requires
        success_recorded(a, b, status, ready, r),
    ensures
        r.previous_state == a.snapshot.last_known_state,
        r.previous_failures == a.snapshot.consecutive_failures,
        b.snapshot.last_known_state == Some(status.effective_state),
        b.snapshot.consecutive_failures == 0,
{
}

/// After a failed poll, a successful poll whose state differs from the state
/// known before the failure records the change from that state as the newest
/// transition, and notifies it under `flip`, or under `no_to_yes` exactly when
/// the new state is `yes`.
pub proof fn lemma_change_after_failure_is_a_transition(
    s0: RuntimeState,
    s1: RuntimeState,
    s2: RuntimeState,
    s3: RuntimeState,
    s4: RuntimeState,
    error: String,
    failure_ready: bool,
    failure_report: Option<TelemetryReport>,
    status: NormalizedStatus,
    ready: bool,
    r: PollSuccess,
    acts: PollActions,
    id: Option<String>,
    prev: String,
)
    requires
        failure_recorded(s0, s1, error, failure_ready, failure_report),
        s2.snapshot == s1.snapshot,
        success_recorded(s2, s3, status, ready, r),
        success_concluded(s3, s4, r.previous_state, status, id, ready, acts),
        s0.snapshot.last_known_state == Some(prev),
        prev@ != status.effective_state@,
    ensures
        s1.snapshot.consecutive_failures > 0 || s0.snapshot.consecutive_failures == u32::MAX,
        s4.transitions@.len() > 0,
        s4.transitions@.last() == (TransitionEntry {
            from: prev,
            to: status.effective_state,
            detected_at: status.fetched_at_ms,
            source_updated_at: status.source_timestamp_ms,
        }),
        acts.notification is Some <==> (s3.settings.notification_policy == NotificationPolicy::Flip
            || status.effective_state@ == "yes"@),
        acts.notification matches Some(n) ==> n.title@ == "ResetPing: status changed"@ && n.body@
            == "Codex reset status changed from "@ + prev@ + " to "@ + status.effective_state@ + "."@,
{
}

/// A failed poll reports its failure only when the streak it makes is 1, 5,
/// 20 or 100 long (and error telemetry may be sent); at any other length,
/// such as 10, it reports nothing.
pub proof fn lemma_failure_reports_only_at_milestones(
    a: RuntimeState,
    b: RuntimeState,
    error: String,
    ready: bool,
    r: Option<TelemetryReport>,
)
    requires
        failure_recorded(a, b, error, ready, r),
    ensures
        r is Some <==> (a.settings.error_telemetry_enabled && ready && (b.snapshot.consecutive_failures
            == 1 || b.snapshot.consecutive_failures == 5 || b.snapshot.consecutive_failures == 20
            || b.snapshot.consecutive_failures == 100)),
        a.snapshot.consecutive_failures == 9 ==> r is None,
{
}

/// Under the `no_to_yes` policy a change to `no` is never notified, and
/// under `flip` every change is.
pub proof fn lemma_policy_routing(current: Seq<char>)
    ensures
        !notifies_change(NotificationPolicy::NoToYes, "no"@),
        notifies_change(NotificationPolicy::NoToYes, "yes"@),
        notifies_change(NotificationPolicy::Flip, current),
{
    reveal_strlit("yes");
    reveal_strlit("no");
    assert("yes"@.len() != "no"@.len());
}

/// One more failure makes the endpoint degraded exactly when the streak
/// reaches the threshold; a success always leaves it healthy.
pub proof fn lemma_failure_streak(before: RuntimeSnapshot, after: RuntimeSnapshot, status: NormalizedStatus)
    requires
        after.consecutive_failures == before.consecutive_failures.saturating_add(1),
    ensures
        degraded(after) <==> before.consecutive_failures + 1 >= FAILURE_THRESHOLD,
        !degraded(snapshot_after_success(status)),
{
}

} // verus!
