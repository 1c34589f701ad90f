//! When things happen: the clock, the usage heartbeat, scheduled update
//! checks, and the delay between polls.
use vstd::prelude::*;
use rand::RngExt;
use std::time::{Duration, SystemTime};

use crate::settings::AppSettings;
use crate::text::{contains_text, lowercase_contains, lowercase_of};

verus! {

/// `std::time::SystemTime`, carried through as an opaque value.
#[verifier::external_type_specification]
#[verifier::external_body]
pub struct ExSystemTime(SystemTime);

/// `SystemTime::now`: the current wall-clock time. Nothing is stated of it.
#[verifier::external_body]
fn system_time_now() -> SystemTime {
    SystemTime::now()
}

/// `SystemTime::duration_since(UNIX_EPOCH)`, as an `Option`: `None` when the
/// clock reads before the epoch. Nothing more is stated of the duration.
#[verifier::external_body]
fn since_unix_epoch(t: &SystemTime) -> Option<Duration> {
    t.duration_since(std::time::UNIX_EPOCH).ok()
}

/// `Duration::as_millis`: the whole milliseconds of `d`. Nothing is stated of
/// the value, since `Duration` is opaque here.
#[verifier::external_body]
fn duration_millis(d: &Duration) -> u128 {
    d.as_millis()
}

/// Milliseconds since the epoch as a `u64`: truncated, and zero when the clock
/// reads before the epoch.
pub fn epoch_millis_u64(ms: Option<u128>) -> (r: u64)
    ensures
        r == match ms {
            Some(m) => m as u64,
            None => 0u64,
        },
{
    match ms {
        Some(m) => m as u64,
        None => 0,
    }
}

/// The current time in milliseconds since the Unix epoch (zero if the clock
/// is set before it). The value depends on the clock, so nothing is stated.
pub fn now_ms() -> u64 {
    let now = system_time_now();
    let ms = match since_unix_epoch(&now) {
        Some(d) => Some(duration_millis(&d)),
        None => None,
    };
    epoch_millis_u64(ms)
}

/// How often a usage heartbeat is sent by a release build (a day).
pub const HEARTBEAT_INTERVAL_MS: u64 = 24 * 60 * 60 * 1000;

/// How often a usage heartbeat is sent by a debug build (ten minutes).
pub const DEBUG_HEARTBEAT_INTERVAL_MS: u64 = 10 * 60 * 1000;

pub fn heartbeat_interval_ms(debug_build: bool) -> (r: u64)
    ensures
        r == if debug_build {
            DEBUG_HEARTBEAT_INTERVAL_MS
        } else {
            HEARTBEAT_INTERVAL_MS
        },
{
    if debug_build {
        DEBUG_HEARTBEAT_INTERVAL_MS
    } else {
        HEARTBEAT_INTERVAL_MS
    }
}

/// A heartbeat is due when none was ever sent, or when at least `interval_ms`
/// passed since the last one (a clock that went back counts as no time).
pub open spec fn heartbeat_due_after(last: Option<u64>, now: u64, interval_ms: u64) -> bool {
    match last {
        None => true,
        Some(l) => now.saturating_sub(l) >= interval_ms,
    }
}

pub fn heartbeat_due_every(last_usage_heartbeat_at_ms: Option<u64>, now: u64, interval_ms: u64) -> (r:
    bool)
    ensures
        r == heartbeat_due_after(last_usage_heartbeat_at_ms, now, interval_ms),
{
    match last_usage_heartbeat_at_ms {
        None => true,
        Some(last) => now.saturating_sub(last) >= interval_ms,
    }
}

/// Whether a heartbeat is due at the release cadence.
pub fn heartbeat_due(last_usage_heartbeat_at_ms: Option<u64>, now: u64) -> (r: bool)
    ensures
        r == heartbeat_due_after(last_usage_heartbeat_at_ms, now, HEARTBEAT_INTERVAL_MS),
{
    heartbeat_due_every(last_usage_heartbeat_at_ms, now, HEARTBEAT_INTERVAL_MS)
}

/// The interval of `hours` hours in milliseconds, saturating.
pub open spec fn hours_in_ms(hours: u64) -> u64 {
    if hours * 3_600_000 > u64::MAX {
        u64::MAX
    } else {
        (hours * 3_600_000) as u64
    }
}

/// An update check is due when none was made yet, or when at least the
/// interval passed since the last one.
pub open spec fn update_check_is_due(last_check: Option<u64>, now: u64, interval_hours: u64) -> bool {
    match last_check {
        None => true,
        Some(l) => now.saturating_sub(l) >= hours_in_ms(interval_hours),
    }
}

pub fn update_check_due(last_check: Option<u64>, now: u64, interval_hours: u64) -> (r: bool)
    ensures
        r == update_check_is_due(last_check, now, interval_hours),
{
    let due_ms: u64 = if interval_hours > u64::MAX / 3_600_000 {
        u64::MAX
    } else {
        interval_hours * 3_600_000
    };
    match last_check {
        None => true,
        Some(last) => now.saturating_sub(last) >= due_ms,
    }
}

/// Whether the background loop should check for updates now: checks are
/// switched on and one is due.
pub fn scheduled_update_check_due(settings: &AppSettings, last_check: Option<u64>, now: u64) -> (r:
    bool)
    ensures
        r == (settings.update_checks_enabled && update_check_is_due(
            last_check,
            now,
            settings.update_check_interval_hours,
        )),
{
    if !settings.update_checks_enabled {
        return false;
    }
    update_check_due(last_check, now, settings.update_check_interval_hours)
}

/// The most random seconds added to each poll interval.
pub const MAX_JITTER_SECS: u64 = 5;

/// The interval before the next poll: the low-power interval while low power
/// mode is on, the normal one otherwise.
pub open spec fn base_poll_interval(settings: AppSettings, low_power: bool) -> u64 {
    if low_power {
        settings.low_power_poll_interval_sec
    } else {
        settings.poll_interval_sec
    }
}

/// The delay before the next poll with `jitter` seconds added, saturating.
pub fn poll_delay_secs(settings: &AppSettings, low_power: bool, jitter: u64) -> (r: u64)
    ensures
        r == base_poll_interval(*settings, low_power).saturating_add(jitter),
{
    let base = if low_power {
        settings.low_power_poll_interval_sec
    } else {
        settings.poll_interval_sec
    };
    base.saturating_add(jitter)
}

/// While low power mode is on, the delay is the low-power interval plus the
/// jitter (saturating), whatever the normal interval is; otherwise it is the
/// normal interval plus the jitter.
pub proof fn lemma_poll_delay_interval(settings: AppSettings, jitter: u64)
    ensures
        base_poll_interval(settings, true).saturating_add(jitter)
            == settings.low_power_poll_interval_sec.saturating_add(jitter),
        base_poll_interval(settings, false).saturating_add(jitter)
            == settings.poll_interval_sec.saturating_add(jitter),
{
}

/// `rand::rng().random_range(0..=max)`: a uniformly drawn number of `0..=max`.
#[verifier::external_body]
fn random_up_to(max: u64) -> (r: u64)
    ensures
        r <= max,
{
    rand::rng().random_range(0..=max)
}

/// The delay before the next poll, with a random jitter of up to
/// `MAX_JITTER_SECS` seconds so that clients do not poll in step.
pub fn next_poll_delay_secs(settings: &AppSettings, low_power: bool) -> (r: u64)
    ensures
        exists|j: u64|
            j <= MAX_JITTER_SECS && r == base_poll_interval(*settings, low_power).saturating_add(j),
{
    let jitter = random_up_to(MAX_JITTER_SECS);
    poll_delay_secs(settings, low_power, jitter)
}

/// Whether low power mode is on, from the output of `pmset -g batt`
/// (`None` where it could not be read, or off macOS).
pub fn low_power_mode_active(pmset_output: Option<&str>) -> (r: bool)
    ensures
        r == match pmset_output {
            Some(t) => contains_text(lowercase_of(t@), "low power mode: 1"@),
            None => false,
        },
{
    match pmset_output {
        Some(text) => lowercase_contains(text, "low power mode: 1"),
        None => false,
    }
}

/// Once a heartbeat was sent at `now`, none is due again before the interval
/// has passed, and one is due as soon as it has.
pub proof fn lemma_heartbeat_cadence(sent_at: u64, now: u64, interval_ms: u64)
    requires
        sent_at <= now,
    ensures
        heartbeat_due_after(Some(sent_at), now, interval_ms) <==> now - sent_at >= interval_ms,
{
}

/// A due heartbeat stays due as time goes on.
pub proof fn lemma_heartbeat_due_monotone(last: Option<u64>, now: u64, later: u64, interval_ms: u64)
    requires
        now <= later,
        heartbeat_due_after(last, now, interval_ms),
    ensures
        heartbeat_due_after(last, later, interval_ms),
{
}

/// A due update check stays due as time goes on.
pub proof fn lemma_update_check_due_monotone(last: Option<u64>, now: u64, later: u64, hours: u64)
    requires
        now <= later,
        update_check_is_due(last, now, hours),
    ensures
        update_check_is_due(last, later, hours),
{
}

} // verus!
