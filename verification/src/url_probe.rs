//! Whether a download URL is reachable: a HEAD request, then a ranged GET,
//! then a plain GET, each next step decided from what the server answered.
use vstd::prelude::*;
use crate::audit_types::{CheckStatus, UrlCheck, UrlFailureType};
use crate::text::string_from_str;

verus! {

/// How many bytes of a download are kept for file type detection.
pub const SNIFF_LIMIT: usize = 262144;

/// Result of URL validation including downloaded bytes for file type detection.
pub struct UrlValidationResult {
    pub check: UrlCheck,
    /// First bytes of the download, reused for file type detection.
    pub downloaded_bytes: Vec<u8>,
}

/// The requests that probe a URL, in the order they are tried.
#[derive(Debug, Clone, Copy, PartialEq, Eq, Structural)]
pub enum Probe {
    /// `HEAD`.
    Head,
    /// `GET` with `Range: bytes=0-262143`.
    RangeGet,
    /// `GET` without a range.
    PlainGet,
}

/// What a probe request came back with.
#[derive(Debug, Clone, Copy, PartialEq, Eq, Structural)]
pub enum ProbeAnswer {
    /// The server answered with this HTTP status.
    Status(u16),
    /// The request failed; whether by a timeout or a connection failure.
    Error { timeout_or_connect: bool },
}

/// What follows a probe.
#[derive(Debug)]
pub enum ProbeStep {
    /// Send this request next.
    Send(Probe),
    /// The URL is reachable: the request that succeeded and its status. The
    /// body of a GET is read and kept (see [`passed_result`]).
    Passed(Probe, u16),
    /// The URL is not reachable.
    Failed(UrlCheck),
}

/// The position of a probe in the order they are tried.
pub open spec fn probe_rank(p: Probe) -> int {
    match p {
        Probe::Head => 0,
        Probe::RangeGet => 1,
        Probe::PlainGet => 2,
    }
}

/// The method name a probe is reported under.
pub open spec fn probe_method(p: Probe) -> Seq<char> {
    match p {
        Probe::Head => "HEAD"@,
        Probe::RangeGet => "GET+Range"@,
        Probe::PlainGet => "GET"@,
    }
}

/// The kind of failure an HTTP error status stands for.
pub open spec fn failure_kind(status: u16) -> UrlFailureType {
    if status == 404 || status == 410 {
        UrlFailureType::Permanent
    } else if status == 403 || status == 401 || status == 416 {
        UrlFailureType::Blocked
    } else if status >= 500 {
        UrlFailureType::Transient
    } else {
        UrlFailureType::Permanent
    }
}

/// Classify an HTTP error status: gone (404, 410) and other client errors
/// are permanent, refusals (401, 403, 416) are blocks, server errors transient.
pub fn classify_failure(status: u16) -> (r: UrlFailureType)
    ensures
        r == failure_kind(status),
{
    if status == 404 || status == 410 {
        UrlFailureType::Permanent
    } else if status == 403 || status == 401 || status == 416 {
        UrlFailureType::Blocked
    } else if status >= 500 {
        UrlFailureType::Transient
    } else {
        UrlFailureType::Permanent
    }
}

/// A failed check of `url` by `probe`, with the status if there was one.
pub open spec fn is_failed_check(c: UrlCheck, url: Seq<char>, probe: Probe, status: Option<u16>) -> bool {
    &&& c.status == CheckStatus::Fail
    &&& c.url matches Some(u) && u@ == url
    &&& c.http_status == status
    &&& c.failure_type == Some(
        match status {
            Some(s) => failure_kind(s),
            None => UrlFailureType::Transient,
        },
    )
    &&& c.method_used matches Some(m) && m@ == probe_method(probe)
}

/// Whether a status is a success (2xx) or a redirection (3xx).
pub open spec fn success_or_redirect(status: u16) -> bool {
    200 <= status <= 399
}

/// The step after `probe` of `url` got `answer`.
pub open spec fn is_next_step(url: Seq<char>, probe: Probe, answer: ProbeAnswer, step: ProbeStep) -> bool {
    match probe {
        Probe::Head => match answer {
            ProbeAnswer::Status(s) => if success_or_redirect(s) || s == 405 || s == 403 {
                step == ProbeStep::Send(Probe::RangeGet)
            } else {
                step matches ProbeStep::Failed(c) && is_failed_check(c, url, probe, Some(s))
            },
            ProbeAnswer::Error { timeout_or_connect } => if timeout_or_connect {
                step == ProbeStep::Send(Probe::RangeGet)
            } else {
                step matches ProbeStep::Failed(c) && is_failed_check(c, url, probe, None)
            },
        },
        Probe::RangeGet => match answer {
            ProbeAnswer::Status(s) => if s == 200 || s == 206 {
                step == ProbeStep::Passed(Probe::RangeGet, s)
            } else if s == 416 || s == 403 {
                step == ProbeStep::Send(Probe::PlainGet)
            } else {
                step matches ProbeStep::Failed(c) && is_failed_check(c, url, probe, Some(s))
            },
            ProbeAnswer::Error { .. } => step == ProbeStep::Send(Probe::PlainGet),
        },
        Probe::PlainGet => match answer {
            ProbeAnswer::Status(s) => if 200 <= s <= 299 {
                step == ProbeStep::Passed(Probe::PlainGet, s)
            } else {
                step matches ProbeStep::Failed(c) && is_failed_check(c, url, probe, Some(s))
            },
            ProbeAnswer::Error { .. } => step matches ProbeStep::Failed(c) && is_failed_check(
                c,
                url,
                probe,
                None,
            ),
        },
    }
}

fn probe_name(probe: Probe) -> (r: String)
    ensures
        r@ == probe_method(probe),
{
    match probe {
        Probe::Head => string_from_str("HEAD"),
        Probe::RangeGet => string_from_str("GET+Range"),
        Probe::PlainGet => string_from_str("GET"),
    }
}

fn failed_check(url: &str, probe: Probe, status: Option<u16>) -> (c: UrlCheck)
    ensures
        is_failed_check(c, url@, probe, status),
{
    let failure_type = match status {
        Some(s) => classify_failure(s),
        None => UrlFailureType::Transient,
    };
    UrlCheck {
        status: CheckStatus::Fail,
        url: Some(string_from_str(url)),
        http_status: status,
        failure_type: Some(failure_type),
        method_used: Some(probe_name(probe)),
    }
}

/// The first request for a URL, or `None` for an empty URL, which is not
/// checked at all (see [`skipped_result`]).
pub fn first_probe(url: &str) -> (r: Option<Probe>)
    ensures
        url@.len() == 0 ==> r is None,
        url@.len() > 0 ==> r == Some(Probe::Head),
{
    if url.is_empty() {
        None
    } else {
        Some(Probe::Head)
    }
}

/// What follows `probe` of `url` once it got `answer`: HEAD accepted
/// (2xx, 3xx) or refused as a method (405, 403) or timed out goes on to a
/// ranged GET; a ranged GET answered 200 or 206 passes, one refused (416,
/// 403) or failed goes on to a plain GET; a plain GET passes on 2xx; any
/// other answer fails the URL.
pub fn next_step(url: &str, probe: Probe, answer: ProbeAnswer) -> (r: ProbeStep)
    ensures
        is_next_step(url@, probe, answer, r),
{
    match probe {
        Probe::Head => match answer {
            ProbeAnswer::Status(s) => {
                if (200 <= s && s <= 399) || s == 405 || s == 403 {
                    ProbeStep::Send(Probe::RangeGet)
                } else {
                    ProbeStep::Failed(failed_check(url, probe, Some(s)))
                }
            },
            ProbeAnswer::Error { timeout_or_connect } => {
                if timeout_or_connect {
                    ProbeStep::Send(Probe::RangeGet)
                } else {
                    ProbeStep::Failed(failed_check(url, probe, None))
                }
            },
        },
        Probe::RangeGet => match answer {
            ProbeAnswer::Status(s) => {
                if s == 200 || s == 206 {
                    ProbeStep::Passed(Probe::RangeGet, s)
                } else if s == 416 || s == 403 {
                    ProbeStep::Send(Probe::PlainGet)
                } else {
                    ProbeStep::Failed(failed_check(url, probe, Some(s)))
                }
            },
            ProbeAnswer::Error { .. } => ProbeStep::Send(Probe::PlainGet),
        },
        Probe::PlainGet => match answer {
            ProbeAnswer::Status(s) => {
                if 200 <= s && s <= 299 {
                    ProbeStep::Passed(Probe::PlainGet, s)
                } else {
                    ProbeStep::Failed(failed_check(url, probe, Some(s)))
                }
            },
            ProbeAnswer::Error { .. } => ProbeStep::Failed(failed_check(url, probe, None)),
        },
    }
}

/// The bytes kept of a passing probe's body: all of a ranged GET's, the first
/// 262144 of a plain GET's.
pub open spec fn kept_bytes(probe: Probe, body: Seq<u8>) -> Seq<u8> {
    if probe == Probe::PlainGet && body.len() > SNIFF_LIMIT {
        body.take(SNIFF_LIMIT as int)
    } else {
        body
    }
}

/// The result of a probe that passed with `status`, keeping the body's first
/// bytes for file type detection.
pub fn passed_result(url: &str, probe: Probe, status: u16, body: Vec<u8>) -> (r: UrlValidationResult)
    ensures
        r.check.status == CheckStatus::Pass,
        r.check.url matches Some(u) && u@ == url@,
        r.check.http_status == Some(status),
        r.check.failure_type is None,
        r.check.method_used matches Some(m) && m@ == probe_method(probe),
        r.downloaded_bytes@ == kept_bytes(probe, body@),
{
    let mut kept = body;
    if probe == Probe::PlainGet && kept.len() > SNIFF_LIMIT {
        kept.truncate(SNIFF_LIMIT);
    }
    UrlValidationResult {
        check: UrlCheck {
            status: CheckStatus::Pass,
            url: Some(string_from_str(url)),
            http_status: Some(status),
            failure_type: None,
            method_used: Some(probe_name(probe)),
        },
        downloaded_bytes: kept,
    }
}

/// The result of a probe that failed: its check and no bytes.
pub fn failed_result(check: UrlCheck) -> (r: UrlValidationResult)
    ensures
        r.check == check,
        r.downloaded_bytes@.len() == 0,
{
    UrlValidationResult { check, downloaded_bytes: Vec::new() }
}

/// A check that was not made: status `Skip`, with the URL if there is one.
pub open spec fn is_skipped_check(c: UrlCheck, url: Option<Seq<char>>) -> bool {
    &&& c.status == CheckStatus::Skip
    &&& match url {
        Some(u) => c.url matches Some(x) && x@ == u,
        None => c.url is None,
    }
    &&& c.http_status is None
    &&& c.failure_type is None
    &&& c.method_used is None
}

/// The result for a URL that is not checked: no bytes, and the URL reported
/// unless it is empty.
pub fn skipped_result(url: &str) -> (r: UrlValidationResult)
    ensures
        is_skipped_check(r.check, if url@.len() == 0 { None } else { Some(url@) }),
        r.downloaded_bytes@.len() == 0,
{
    let reported = if url.is_empty() {
        None
    } else {
        Some(string_from_str(url))
    };
    UrlValidationResult {
        check: UrlCheck {
            status: CheckStatus::Skip,
            url: reported,
            http_status: None,
            failure_type: None,
            method_used: None,
        },
        downloaded_bytes: Vec::new(),
    }
}

/// Every step moves on to a later request, so a URL is probed at most three times.
pub proof fn law_probes_advance(url: Seq<char>, probe: Probe, answer: ProbeAnswer, step: ProbeStep)
    requires
        is_next_step(url, probe, answer, step),
    ensures
        step matches ProbeStep::Send(next) ==> probe_rank(next) > probe_rank(probe),
{
}

/// A URL fails only with a failure kind, and passes only on a success status.
pub proof fn law_probe_verdicts(url: Seq<char>, probe: Probe, answer: ProbeAnswer, step: ProbeStep)
    requires
        is_next_step(url, probe, answer, step),
    ensures
        step matches ProbeStep::Failed(c) ==> c.status == CheckStatus::Fail && c.failure_type is Some,
        step matches ProbeStep::Passed(p, s) ==> 200 <= s <= 299 && p == probe && answer == ProbeAnswer::Status(s),
{
}

} // verus!
