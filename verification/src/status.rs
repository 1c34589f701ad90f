//! The upstream status contract: normalizing the reported state, judging an
//! HTTP reply, and the framing of the curl fallback's output.
use vstd::prelude::*;
use vstd::string::*;

use crate::text::{
    chars_of, concat, contains_text, decimal, decimal_string, is_digit, is_space,
    lemma_decimal_digits, lemma_parse_decimal, lowercase_contains, lowercase_of, occurs_at,
    parse_u16, parse_u16_chars, rfind_text, string_of_chars, text_eq, trim, trimmed,
};

verus! {

/// The user agent sent with every status request.
pub const APP_USER_AGENT: &'static str = "ResetPing/0.1.0 (+https://github.com/nielsgl/resetping)";

/// The line curl is told to append after the body, before the status code.
pub const STATUS_TRAILER: &'static str = "\n__HTTP_STATUS__:";

/// The `--write-out` format that makes curl print `STATUS_TRAILER` and the code.
pub const STATUS_TRAILER_FORMAT: &'static str = "\n__HTTP_STATUS__:%{http_code}";

/// The JSON body the status endpoint answers with.
#[derive(Debug, Clone)]
pub struct StatusApiPayload {
    pub state: String,
    pub configured: bool,
    pub updated_at: Option<u64>,
    pub error: Option<String>,
}

/// How a status was fetched.
#[derive(Debug, Clone, Copy, PartialEq, Eq, Structural)]
pub enum FetchTransport {
    Reqwest,
    CurlFallback,
}

/// A successfully fetched status, reduced to what the poll engine reads.
#[derive(Debug, Clone)]
pub struct NormalizedStatus {
    pub effective_state: String,
    pub source_timestamp_ms: Option<u64>,
    pub fetched_at_ms: u64,
    pub configured: bool,
    pub transport: FetchTransport,
}

/// Every upstream state other than `no` counts as `yes`.
pub open spec fn effective_state_of(state: Seq<char>) -> Seq<char> {
    if state == "no"@ {
        "no"@
    } else {
        "yes"@
    }
}

/// The normalized state is always `yes` or `no`, it is `no` exactly when
/// the upstream said `no`, and normalizing it again changes nothing.
pub proof fn lemma_effective_state(state: Seq<char>)
    ensures
        effective_state_of(state) == "yes"@ || effective_state_of(state) == "no"@,
        effective_state_of(state) == "no"@ <==> state == "no"@,
        effective_state_of(effective_state_of(state)) == effective_state_of(state),
{
    reveal_strlit("yes");
    reveal_strlit("no");
    assert("yes"@ != "no"@) by {
        assert("yes"@.len() != "no"@.len());
    }
}

/// Maps an upstream state to `no` or `yes`.
pub fn normalize_state(state: &str) -> (r: String)
    ensures
        r@ == effective_state_of(state@),
{
    if text_eq(state, "no") {
        String::from_str("no")
    } else {
        String::from_str("yes")
    }
}

/// Whether `n` is the status normalized from `payload`, fetched at
/// `fetched_at_ms` over `transport`.
pub open spec fn normalized_from(
    n: NormalizedStatus,
    payload: StatusApiPayload,
    fetched_at_ms: u64,
    transport: FetchTransport,
) -> bool {
    &&& n.effective_state@ == effective_state_of(payload.state@)
    &&& n.source_timestamp_ms == payload.updated_at
    &&& n.fetched_at_ms == fetched_at_ms
    &&& n.configured == payload.configured
    &&& n.transport == transport
}

fn normalize_payload(payload: StatusApiPayload, fetched_at_ms: u64, transport: FetchTransport) -> (r:
    NormalizedStatus)
    ensures
        normalized_from(r, payload, fetched_at_ms, transport),
{
    NormalizedStatus {
        effective_state: normalize_state(payload.state.as_str()),
        source_timestamp_ms: payload.updated_at,
        fetched_at_ms,
        configured: payload.configured,
        transport,
    }
}

/// The upstream's own error text, or a placeholder when it sent none.
pub open spec fn upstream_error_of(error: Option<String>) -> Seq<char> {
    match error {
        Some(e) => e@,
        None => "no upstream error message"@,
    }
}

fn upstream_error(error: &Option<String>) -> (r: String)
    ensures
        r@ == upstream_error_of(*error),
{
    match error {
        Some(e) => e.clone(),
        None => String::from_str("no upstream error message"),
    }
}

/// The error reported for a reply whose HTTP status is a failure.
pub open spec fn status_failure_message(status_label: Seq<char>, upstream: Seq<char>) -> Seq<char> {
    "request failed with status "@ + status_label + "; upstream_error="@ + upstream
}

fn status_failure(status_label: &str, error: &Option<String>) -> (r: String)
    ensures
        r@ == status_failure_message(status_label@, upstream_error_of(*error)),
{
    let mut m = String::from_str("request failed with status ");
    m.append(status_label);
    m.append("; upstream_error=");
    let up = upstream_error(error);
    m.append(up.as_str());
    m
}

/// Whether an HTTP status code is a success (`200..=299`).
pub open spec fn is_success_code(code: u16) -> bool {
    200 <= code && code < 300
}

/// How a parsed reply is judged: a success status gives the normalized
/// status, any other status an error naming the status and upstream error.
pub open spec fn status_judged(
    status_code: u16,
    status_label: Seq<char>,
    payload: StatusApiPayload,
    fetched_at_ms: u64,
    r: Result<NormalizedStatus, String>,
) -> bool {
    &&& (r is Ok <==> is_success_code(status_code))
    &&& (r matches Ok(n) ==> normalized_from(n, payload, fetched_at_ms, FetchTransport::Reqwest))
    &&& (r matches Err(m) ==> m@ == status_failure_message(
        status_label,
        upstream_error_of(payload.error),
    ))
}

/// Only a 2xx reply is a successful poll: a reply with any status outside
/// `200..=299`, 4xx included, is an error naming that status and the upstream
/// error, and a 2xx reply keeps the payload's timestamp and configured flag.
pub proof fn lemma_only_2xx_succeeds(
    status_code: u16,
    status_label: Seq<char>,
    payload: StatusApiPayload,
    fetched_at_ms: u64,
    r: Result<NormalizedStatus, String>,
)
    requires
        status_judged(status_code, status_label, payload, fetched_at_ms, r),
    ensures
        (status_code < 200 || status_code > 299) ==> (r matches Err(m) && m@
            == "request failed with status "@ + status_label + "; upstream_error="@
            + upstream_error_of(payload.error)),
        200 <= status_code <= 299 ==> (r matches Ok(n) && n.source_timestamp_ms == payload.updated_at
            && n.fetched_at_ms == fetched_at_ms && n.configured == payload.configured),
{
}

/// Judges a parsed reply of the status endpoint: a success status gives the
/// normalized status, any other status an error naming the status
/// (`status_label`, as the HTTP client displays it) and the upstream error.
pub fn interpret_status_response(
    status_code: u16,
    status_label: &str,
    payload: StatusApiPayload,
    fetched_at_ms: u64,
) -> (r: Result<NormalizedStatus, String>)
    ensures
        status_judged(status_code, status_label@, payload, fetched_at_ms, r),
{
    if !(200 <= status_code && status_code < 300) {
        return Err(status_failure(status_label, &payload.error));
    }
    Ok(normalize_payload(payload, fetched_at_ms, FetchTransport::Reqwest))
}

/// The error reported for a reply whose body is not a status payload.
pub open spec fn unparsable_body_message(
    status_code: u16,
    status_label: Seq<char>,
    parse_error: Seq<char>,
    body: Seq<char>,
) -> Seq<char> {
    if is_success_code(status_code) {
        "invalid response body: "@ + parse_error
    } else {
        "request failed with status "@ + status_label + " and unparsable body: "@ + parse_error
            + "; body="@ + body
    }
}

/// The error for a reply whose body could not be parsed; `parse_error` is the
/// parser's description of what went wrong.
pub fn unparsable_body(status_code: u16, status_label: &str, parse_error: &str, body: &str) -> (r:
    String)
    ensures
        r@ == unparsable_body_message(status_code, status_label@, parse_error@, body@),
{
    if 200 <= status_code && status_code < 300 {
        concat("invalid response body: ", parse_error)
    } else {
        let mut m = String::from_str("request failed with status ");
        m.append(status_label);
        m.append(" and unparsable body: ");
        m.append(parse_error);
        m.append("; body=");
        m.append(body);
        m
    }
}

/// Whether a failed request should be retried through curl: its error text
/// mentions a bad file descriptor, in any letter case.
pub fn should_fallback_to_curl(request_error: &str) -> (r: bool)
    ensures
        r == contains_text(lowercase_of(request_error@), "bad file descriptor"@),
{
    lowercase_contains(request_error, "bad file descriptor")
}

/// The error when both the request and its curl fallback failed.
pub fn fallback_failure_message(request_error: &str, fallback_error: &str) -> (r: String)
    ensures
        r@ == request_error@ + "; curl fallback failed: "@ + fallback_error@,
{
    let mut m = String::from_str(request_error);
    m.append("; curl fallback failed: ");
    m.append(fallback_error);
    m
}

/// The whole seconds curl may wait: the timeout rounded up, at least one.
pub open spec fn curl_timeout(http_timeout_ms: u64) -> u64 {
    let up = http_timeout_ms / 1000 + if http_timeout_ms % 1000 == 0 { 0u64 } else { 1u64 };
    if up < 1 {
        1
    } else {
        up as u64
    }
}

pub fn curl_timeout_secs(http_timeout_ms: u64) -> (r: u64)
    ensures
        r == curl_timeout(http_timeout_ms),
{
    let up = http_timeout_ms / 1000 + if http_timeout_ms % 1000 == 0 { 0 } else { 1 };
    if up < 1 {
        1
    } else {
        up
    }
}

/// The arguments curl is run with.
pub open spec fn curl_args_spec(timeout_secs: u64, endpoint: Seq<char>) -> Seq<Seq<char>> {
    seq![
        "--silent"@,
        "--show-error"@,
        "--max-time"@,
        decimal(timeout_secs as nat),
        "--connect-timeout"@,
        decimal(timeout_secs as nat),
        "--header"@,
        "cache-control: no-store"@,
        "--user-agent"@,
        APP_USER_AGENT@,
        "--write-out"@,
        STATUS_TRAILER_FORMAT@,
        endpoint,
    ]
}

pub open spec fn string_views(v: Seq<String>) -> Seq<Seq<char>> {
    v.map_values(|s: String| s@)
}

/// The arguments of the curl fallback request.
pub fn curl_args(timeout_secs: u64, endpoint: &str) -> (r: Vec<String>)
    ensures
        string_views(r@) == curl_args_spec(timeout_secs, endpoint@),
{
    let mut r: Vec<String> = Vec::new();
    r.push(String::from_str("--silent"));
    r.push(String::from_str("--show-error"));
    r.push(String::from_str("--max-time"));
    r.push(decimal_string(timeout_secs));
    r.push(String::from_str("--connect-timeout"));
    r.push(decimal_string(timeout_secs));
    r.push(String::from_str("--header"));
    r.push(String::from_str("cache-control: no-store"));
    r.push(String::from_str("--user-agent"));
    r.push(String::from_str(APP_USER_AGENT));
    r.push(String::from_str("--write-out"));
    r.push(String::from_str(STATUS_TRAILER_FORMAT));
    r.push(String::from_str(endpoint));
    assert(string_views(r@) =~= curl_args_spec(timeout_secs, endpoint@));
    r
}


/// Whether `i` is where the last occurrence of `pat` in `s` starts.
pub open spec fn is_last_occurrence(s: Seq<char>, pat: Seq<char>, i: int) -> bool {
    occurs_at(s, pat, i) && forall|j: int| i < j ==> !occurs_at(s, pat, j)
}

/// Splits curl's output at the last status trailer: the body before it and
/// the status code after it, trimmed and read as a decimal `u16`.
pub open spec fn curl_output_split(out: Seq<char>) -> Result<(Seq<char>, u16), Seq<char>> {
    let m = STATUS_TRAILER@;
    if !contains_text(out, m) {
        Err("curl fallback missing HTTP status trailer"@)
    } else {
        let i = choose|i: int| is_last_occurrence(out, m, i);
        match parse_u16(trim(out.subrange(i + m.len(), out.len() as int))) {
            Ok(code) => Ok((out.take(i), code)),
            Err(e) => Err("curl fallback invalid HTTP status trailer: "@ + e.spec_message()),
        }
    }
}

/// Separates the body of the curl fallback's output from its status trailer.
pub fn split_curl_output(out: &str) -> (r: Result<(String, u16), String>)
    ensures
        match r {
            Ok((body, code)) => curl_output_split(out@) == Ok::<(Seq<char>, u16), Seq<char>>((body@, code)),
            Err(m) => curl_output_split(out@) == Err::<(Seq<char>, u16), Seq<char>>(m@),
        },
{
    let v = chars_of(out);
    let marker = chars_of(STATUS_TRAILER);
    match rfind_text(&v, &marker) {
        None => Err(String::from_str("curl fallback missing HTTP status trailer")),
        Some(i) => {
            proof {
                let m = STATUS_TRAILER@;
                assert(is_last_occurrence(out@, m, i as int));
                let j = choose|j: int| is_last_occurrence(out@, m, j);
                assert(j == i as int);
            }
            let code_text = trimmed(&v, i + marker.len(), v.len());
            match parse_u16_chars(&code_text) {
                Ok(code) => {
                    let body = string_of_chars(&v, 0, i);
                    assert(v@.subrange(0, i as int) == out@.take(i as int));
                    Ok((body, code))
                },
                Err(e) => {
                    let mut m = String::from_str("curl fallback invalid HTTP status trailer: ");
                    let msg = e.message();
                    m.append(msg.as_str());
                    Err(m)
                },
            }
        },
    }
}

/// The trailer's only line break is its first character.
proof fn lemma_trailer_shape()
    ensures
        STATUS_TRAILER@.len() == 17,
        STATUS_TRAILER@[0] == '\n',
        forall|k: int| 0 < k < 17 ==> STATUS_TRAILER@[k] != '\n',
{
    reveal_strlit("\n__HTTP_STATUS__:");
}

/// In a body followed by the trailer and digits, the trailer last occurs
/// right after the body.
proof fn lemma_trailer_last(body: Seq<char>, d: Seq<char>)
    requires
        forall|k: int| 0 <= k < d.len() ==> is_digit(#[trigger] d[k]),
    ensures
        is_last_occurrence(body + STATUS_TRAILER@ + d, STATUS_TRAILER@, body.len() as int),
{
    lemma_trailer_shape();
    let m = STATUS_TRAILER@;
    let out = body + m + d;
    let i = body.len() as int;
    assert(out.subrange(i, i + m.len()) =~= m);
    assert forall|j: int| i < j implies !occurs_at(out, m, j) by {
        if occurs_at(out, m, j) {
            assert(out.subrange(j, j + m.len())[0] == m[0]);
            if j < i + m.len() {
                assert(out[j] == m[j - i]);
            } else {
                assert(out[j] == d[j - i - m.len()]);
            }
        }
    }
}

/// Digits are not whitespace, so trimming a run of digits keeps it whole.
proof fn lemma_trim_digits(d: Seq<char>)
    requires
        d.len() >= 1,
        forall|k: int| 0 <= k < d.len() ==> is_digit(#[trigger] d[k]),
    ensures
        trim(d) == d,
{
    assert(is_digit(d[0]));
    assert(!is_space(d[0]));
    assert(is_digit(d[d.len() - 1]));
    assert(!is_space(d.last()));
}

/// The decimal rendering of a `u16` parses back to it.
proof fn lemma_parse_u16_decimal(code: u16)
    ensures
        parse_u16(decimal(code as nat)) == Ok::<u16, crate::text::IntParseError>(code),
{
    let d = decimal(code as nat);
    lemma_decimal_digits(code as nat);
    assert(is_digit(d[0]));
    lemma_parse_decimal(code as nat);
}

/// Reading back what curl writes: a body followed by the status trailer and
/// a status code splits into that body and that code, whatever the body holds.
pub proof fn lemma_curl_output_round_trip(body: Seq<char>, code: u16)
    ensures
        curl_output_split(body + STATUS_TRAILER@ + decimal(code as nat)) == Ok::<
            (Seq<char>, u16),
            Seq<char>,
        >((body, code)),
{
    let m = STATUS_TRAILER@;
    let d = decimal(code as nat);
    let out = body + m + d;
    let i = body.len() as int;
    lemma_decimal_digits(code as nat);
    lemma_trailer_last(body, d);
    let k = choose|k: int| is_last_occurrence(out, m, k);
    assert(k == i);
    assert(out.subrange(i + m.len(), out.len() as int) =~= d);
    lemma_trim_digits(d);
    lemma_parse_u16_decimal(code);
    assert(out.take(i) =~= body);
}

/// Judges the curl fallback's parsed reply: a status code of 400 or more is
/// an error naming the code and the upstream error.
pub fn interpret_curl_response(status_code: u16, payload: StatusApiPayload, fetched_at_ms: u64) -> (r:
    Result<NormalizedStatus, String>)
    ensures
        r is Ok <==> status_code < 400,
        r matches Ok(n) ==> normalized_from(n, payload, fetched_at_ms, FetchTransport::CurlFallback),
        r matches Err(m) ==> m@ == status_failure_message(
            decimal(status_code as nat),
            upstream_error_of(payload.error),
        ),
{
    if status_code >= 400 {
        let label = decimal_string(status_code as u64);
        return Err(status_failure(label.as_str(), &payload.error));
    }
    Ok(normalize_payload(payload, fetched_at_ms, FetchTransport::CurlFallback))
}

} // verus!
