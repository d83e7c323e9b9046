//! The report over all audited packages: its counters, and the summary that
//! is printed for people.
use vstd::prelude::*;
use crate::audit_types::{AuditReport, CheckStatus, PackageValidationResult, ResultStatus, ValidationSummary};
use crate::numeric::{decimal, push_decimal};
use crate::outside_text::opt_view;
use crate::providers::{debug_option_string, debug_text_of};
use crate::text::{join_chars, join_with, push_str_chars, string_from_chars};

verus! {

/// How many results satisfy `p`.
pub open spec fn count_where(rs: Seq<PackageValidationResult>, p: spec_fn(PackageValidationResult) -> bool) -> nat
    decreases rs.len(),
{
    if rs.len() == 0 {
        0
    } else {
        count_where(rs.drop_last(), p) + if p(rs.last()) {
            1nat
        } else {
            0nat
        }
    }
}

/// A failed result whose URL check failed.
pub open spec fn failed_on_url(r: PackageValidationResult) -> bool {
    r.status == ResultStatus::Fail && r.url_reachability.status == CheckStatus::Fail
}

/// A failed result whose version discovery failed.
pub open spec fn failed_on_version(r: PackageValidationResult) -> bool {
    r.status == ResultStatus::Fail && r.version_discovery.status == CheckStatus::Fail
}

/// A failed result whose install method check failed.
pub open spec fn failed_on_install(r: PackageValidationResult) -> bool {
    r.status == ResultStatus::Fail && r.install_method.status == CheckStatus::Fail
}

/// A failed result whose precision check failed.
pub open spec fn failed_on_precision(r: PackageValidationResult) -> bool {
    r.status == ResultStatus::Fail && (r.version_precision matches Some(p) && p.status
        == CheckStatus::Fail)
}

/// Whether a result has the given overall status.
pub open spec fn has_status(r: PackageValidationResult, s: ResultStatus) -> bool {
    r.status == s
}

/// The counters over a list of results.
pub open spec fn summary_of(rs: Seq<PackageValidationResult>) -> ValidationSummary {
    ValidationSummary {
        total_checked: rs.len() as u32,
        passed: count_where(rs, |r: PackageValidationResult| has_status(r, ResultStatus::Pass)) as u32,
        failed_url: count_where(rs, |r: PackageValidationResult| failed_on_url(r)) as u32,
        failed_version: count_where(rs, |r: PackageValidationResult| failed_on_version(r)) as u32,
        failed_install_method: count_where(rs, |r: PackageValidationResult| failed_on_install(r)) as u32,
        failed_precision: count_where(rs, |r: PackageValidationResult| failed_on_precision(r)) as u32,
        skipped: count_where(rs, |r: PackageValidationResult| has_status(r, ResultStatus::Skip)) as u32,
    }
}

/// No more results satisfy a predicate than there are results, and no more
/// satisfy a stronger predicate than a weaker one.
pub proof fn lemma_count_bounds(rs: Seq<PackageValidationResult>, p: spec_fn(PackageValidationResult) -> bool, q: spec_fn(PackageValidationResult) -> bool)
    requires
        forall|r: PackageValidationResult| #[trigger] p(r) ==> q(r),
    ensures
        count_where(rs, p) <= count_where(rs, q),
        count_where(rs, q) <= rs.len(),
    decreases rs.len(),
{
    if rs.len() > 0 {
        lemma_count_bounds(rs.drop_last(), p, q);
    }
}

/// Every result is passed, failed or skipped.
pub proof fn lemma_status_partition(rs: Seq<PackageValidationResult>)
    ensures
        count_where(rs, |r: PackageValidationResult| has_status(r, ResultStatus::Pass)) + count_where(
            rs,
            |r: PackageValidationResult| has_status(r, ResultStatus::Fail),
        ) + count_where(rs, |r: PackageValidationResult| has_status(r, ResultStatus::Skip))
            == rs.len(),
    decreases rs.len(),
{
    if rs.len() > 0 {
        lemma_status_partition(rs.drop_last());
    }
}

fn record(summary: &mut ValidationSummary, result: &PackageValidationResult, Ghost(done): Ghost<Seq<PackageValidationResult>>)
    requires
        *old(summary) == summary_of(done),
        done.len() < u32::MAX,
    ensures
        *final(summary) == summary_of(done.push(*result)),
{
    let ghost all = done.push(*result);
    proof {
        assert(all.drop_last() =~= done);
        lemma_count_bounds(done, |r: PackageValidationResult| has_status(r, ResultStatus::Pass), |r: PackageValidationResult| has_status(r, ResultStatus::Pass));
        lemma_count_bounds(done, |r: PackageValidationResult| failed_on_url(r), |r: PackageValidationResult| failed_on_url(r));
        lemma_count_bounds(done, |r: PackageValidationResult| failed_on_version(r), |r: PackageValidationResult| failed_on_version(r));
        lemma_count_bounds(done, |r: PackageValidationResult| failed_on_install(r), |r: PackageValidationResult| failed_on_install(r));
        lemma_count_bounds(done, |r: PackageValidationResult| failed_on_precision(r), |r: PackageValidationResult| failed_on_precision(r));
        lemma_count_bounds(done, |r: PackageValidationResult| has_status(r, ResultStatus::Skip), |r: PackageValidationResult| has_status(r, ResultStatus::Skip));
    }
    match result.status {
        ResultStatus::Pass => {
            summary.passed = summary.passed + 1;
        },
        ResultStatus::Fail => {
            if result.url_reachability.status == CheckStatus::Fail {
                summary.failed_url = summary.failed_url + 1;
            }
            if result.version_discovery.status == CheckStatus::Fail {
                summary.failed_version = summary.failed_version + 1;
            }
            if result.install_method.status == CheckStatus::Fail {
                summary.failed_install_method = summary.failed_install_method + 1;
            }
            let precision_failed = match &result.version_precision {
                Some(p) => p.status == CheckStatus::Fail,
                None => false,
            };
            if precision_failed {
                summary.failed_precision = summary.failed_precision + 1;
            }
        },
        ResultStatus::Skip => {
            summary.skipped = summary.skipped + 1;
        },
    }
    summary.total_checked = summary.total_checked + 1;
}

/// The report over the audited packages, in the order they were audited,
/// generated at the given time.
pub fn audit_report(generated_at: String, results: Vec<PackageValidationResult>) -> (r: AuditReport)
    requires
        results@.len() < u32::MAX,
    ensures
        r.generated_at == generated_at,
        r.summary == summary_of(results@),
        r.manifests_checked == r.summary.total_checked,
        r.manifests_passed == r.summary.passed,
        r.manifests_skipped == r.summary.skipped,
        r.manifests_failed == count_where(results@, |x: PackageValidationResult| has_status(x, ResultStatus::Fail)),
        r.results@ == results@,
{
    let mut summary = ValidationSummary {
        total_checked: 0,
        passed: 0,
        failed_url: 0,
        failed_version: 0,
        failed_install_method: 0,
        failed_precision: 0,
        skipped: 0,
    };
    let mut i: usize = 0;
    proof {
        assert(results@.take(0) =~= Seq::<PackageValidationResult>::empty());
    }
    while i < results.len()
        invariant
            i <= results@.len(),
            results@.len() < u32::MAX,
            summary == summary_of(results@.take(i as int)),
        decreases results@.len() - i,
    {
        proof {
            assert(results@.take(i + 1) =~= results@.take(i as int).push(results@[i as int]));
        }
        record(&mut summary, &results[i], Ghost(results@.take(i as int)));
        i = i + 1;
    }
    proof {
        assert(results@.take(results@.len() as int) =~= results@);
        lemma_status_partition(results@);
        lemma_count_bounds(results@, |r: PackageValidationResult| has_status(r, ResultStatus::Pass), |r: PackageValidationResult| has_status(r, ResultStatus::Pass));
        lemma_count_bounds(results@, |r: PackageValidationResult| has_status(r, ResultStatus::Skip), |r: PackageValidationResult| has_status(r, ResultStatus::Skip));
        lemma_count_bounds(results@, |r: PackageValidationResult| has_status(r, ResultStatus::Fail), |r: PackageValidationResult| has_status(r, ResultStatus::Fail));
    }
    let failed = summary.total_checked - summary.passed - summary.skipped;
    AuditReport {
        generated_at,
        manifests_checked: summary.total_checked,
        manifests_passed: summary.passed,
        manifests_failed: failed,
        manifests_skipped: summary.skipped,
        results,
        summary,
    }
}

/// In a report the counts add up: every package is passed, failed or skipped,
/// and each kind of failure is counted among the failed packages only.
pub proof fn law_report_counts(results: Seq<PackageValidationResult>)
    requires
        results.len() < u32::MAX,
    ensures
        ({
            let s = summary_of(results);
            let failed = count_where(results, |x: PackageValidationResult| has_status(x, ResultStatus::Fail));
            &&& s.passed + failed + s.skipped == s.total_checked
            &&& s.failed_url <= failed
            &&& s.failed_version <= failed
            &&& s.failed_install_method <= failed
            &&& s.failed_precision <= failed
        }),
{
    let fail = |x: PackageValidationResult| has_status(x, ResultStatus::Fail);
    lemma_status_partition(results);
    lemma_count_bounds(results, |r: PackageValidationResult| has_status(r, ResultStatus::Pass), |r: PackageValidationResult| has_status(r, ResultStatus::Pass));
    lemma_count_bounds(results, |r: PackageValidationResult| has_status(r, ResultStatus::Skip), |r: PackageValidationResult| has_status(r, ResultStatus::Skip));
    lemma_count_bounds(results, |r: PackageValidationResult| failed_on_url(r), fail);
    lemma_count_bounds(results, |r: PackageValidationResult| failed_on_version(r), fail);
    lemma_count_bounds(results, |r: PackageValidationResult| failed_on_install(r), fail);
    lemma_count_bounds(results, |r: PackageValidationResult| failed_on_precision(r), fail);
}

/// `true` or `false`, as std displays a boolean.
pub open spec fn bool_text(b: bool) -> Seq<char> {
    if b {
        "true"@
    } else {
        "false"@
    }
}

/// A text, or `?` for none.
pub open spec fn or_question(o: Option<Seq<char>>) -> Seq<char> {
    match o {
        Some(s) => s,
        None => "?"@,
    }
}

/// Why a failed package failed, one reason per failed check.
pub open spec fn failure_reasons(r: PackageValidationResult) -> Seq<Seq<char>> {
    let version = if r.version_discovery.status == CheckStatus::Fail {
        seq!["version: "@ + or_question(opt_view(r.version_discovery.error))]
    } else {
        Seq::empty()
    };
    let url = if r.url_reachability.status == CheckStatus::Fail {
        seq![
            "url: "@ + or_question(opt_view(r.url_reachability.url)) + " ("@ + match r.url_reachability.http_status {
                Some(s) => decimal(s as nat),
                None => "timeout"@,
            } + ")"@,
        ]
    } else {
        Seq::empty()
    };
    let method = if r.install_method.status == CheckStatus::Fail {
        seq![
            "method: "@ + r.install_method.declared_method@ + "(zip="@ + bool_text(r.install_method.declared_zip_wrapped)
                + ") != "@ + debug_text_of(opt_view(r.install_method.detected_method)) + "(zip="@ + bool_text(
                r.install_method.detected_zip_wrapped,
            ) + ")"@,
        ]
    } else {
        Seq::empty()
    };
    let precision = if r.version_precision matches Some(p) && p.status == CheckStatus::Fail {
        seq!["precision: version too short for URL"@]
    } else {
        Seq::empty()
    };
    version + url + method + precision
}

/// The summary line of one failed package.
pub open spec fn failure_line(r: PackageValidationResult) -> Seq<char> {
    "    "@ + r.id@ + " \u{2014} "@ + join_with(failure_reasons(r), "; "@)
}

/// The lines of the failed packages, in order.
pub open spec fn failure_lines(rs: Seq<PackageValidationResult>) -> Seq<Seq<char>>
    decreases rs.len(),
{
    if rs.len() == 0 {
        Seq::empty()
    } else if rs.last().status == ResultStatus::Fail {
        failure_lines(rs.drop_last()).push(failure_line(rs.last()))
    } else {
        failure_lines(rs.drop_last())
    }
}

/// The first line of the summary.
pub open spec fn headline(rep: AuditReport) -> Seq<char> {
    "Audit: "@ + decimal(rep.manifests_checked as nat) + " checked, "@ + decimal(
        rep.manifests_passed as nat,
    ) + " passed, "@ + decimal(rep.manifests_failed as nat) + " failed, "@ + decimal(
        rep.manifests_skipped as nat,
    ) + " skipped"@
}

/// The line counting failures by kind.
pub open spec fn failure_counts_line(s: ValidationSummary) -> Seq<char> {
    "  Failures: url="@ + decimal(s.failed_url as nat) + ", version="@ + decimal(
        s.failed_version as nat,
    ) + ", method="@ + decimal(s.failed_install_method as nat) + ", precision="@ + decimal(
        s.failed_precision as nat,
    )
}

/// The human-readable summary of a report, line by line.
pub open spec fn summary_text(rep: AuditReport) -> Seq<Seq<char>> {
    if rep.manifests_failed > 0 {
        seq![headline(rep), failure_counts_line(rep.summary)] + failure_lines(rep.results@)
    } else {
        seq![headline(rep)]
    }
}

fn push_bool(out: &mut Vec<char>, b: bool)
    ensures
        final(out)@ == old(out)@ + bool_text(b),
{
    if b {
        push_str_chars(out, "true");
    } else {
        push_str_chars(out, "false");
    }
    proof {
        reveal_strlit("true");
        reveal_strlit("false");
    }
}

fn push_or_question(out: &mut Vec<char>, o: &Option<String>)
    ensures
        final(out)@ == old(out)@ + or_question(opt_view(*o)),
{
    match o {
        Some(s) => push_str_chars(out, s.as_str()),
        None => push_str_chars(out, "?"),
    }
}

fn failure_reason_list(r: &PackageValidationResult) -> (out: Vec<Vec<char>>)
    ensures
        out@.map_values(|p: Vec<char>| p@) == failure_reasons(*r),
{
    let mut out: Vec<Vec<char>> = Vec::new();
    if r.version_discovery.status == CheckStatus::Fail {
        let mut line: Vec<char> = Vec::new();
        push_str_chars(&mut line, "version: ");
        push_or_question(&mut line, &r.version_discovery.error);
        out.push(line);
    }
    let ghost after_version = out@.map_values(|p: Vec<char>| p@);
    if r.url_reachability.status == CheckStatus::Fail {
        let mut line: Vec<char> = Vec::new();
        push_str_chars(&mut line, "url: ");
        push_or_question(&mut line, &r.url_reachability.url);
        push_str_chars(&mut line, " (");
        match r.url_reachability.http_status {
            Some(s) => push_decimal(&mut line, s as u64),
            None => push_str_chars(&mut line, "timeout"),
        }
        push_str_chars(&mut line, ")");
        out.push(line);
    }
    let ghost after_url = out@.map_values(|p: Vec<char>| p@);
    if r.install_method.status == CheckStatus::Fail {
        let mut line: Vec<char> = Vec::new();
        push_str_chars(&mut line, "method: ");
        push_str_chars(&mut line, r.install_method.declared_method.as_str());
        push_str_chars(&mut line, "(zip=");
        push_bool(&mut line, r.install_method.declared_zip_wrapped);
        push_str_chars(&mut line, ") != ");
        let detected = debug_option_string(&r.install_method.detected_method);
        push_str_chars(&mut line, detected.as_str());
        push_str_chars(&mut line, "(zip=");
        push_bool(&mut line, r.install_method.detected_zip_wrapped);
        push_str_chars(&mut line, ")");
        out.push(line);
    }
    let ghost after_method = out@.map_values(|p: Vec<char>| p@);
    let precision_failed = match &r.version_precision {
        Some(p) => p.status == CheckStatus::Fail,
        None => false,
    };
    if precision_failed {
        let mut line: Vec<char> = Vec::new();
        push_str_chars(&mut line, "precision: version too short for URL");
        out.push(line);
    }
    proof {
        let fr = failure_reasons(*r);
        assert(out@.map_values(|p: Vec<char>| p@) =~= fr);
    }
    out
}

fn failure_line_of(r: &PackageValidationResult) -> (s: String)
    ensures
        s@ == failure_line(*r),
{
    let reasons = failure_reason_list(r);
    let sep: Vec<char> = vec![';', ' '];
    let mut out: Vec<char> = Vec::new();
    push_str_chars(&mut out, "    ");
    push_str_chars(&mut out, r.id.as_str());
    push_str_chars(&mut out, " \u{2014} ");
    let joined = join_chars(&reasons, sep.as_slice());
    crate::text::push_all(&mut out, joined.as_slice());
    proof {
        reveal_strlit("; ");
        assert(sep@ =~= "; "@);
        assert(out@ =~= failure_line(*r));
    }
    string_from_chars(out.as_slice())
}

/// The human-readable summary of a report, line by line (printed to stderr by
/// the program).
pub fn summary_lines(report: &AuditReport) -> (r: Vec<String>)
    ensures
        r@.map_values(|s: String| s@) == summary_text(*report),
{
    let mut lines: Vec<String> = Vec::new();
    let mut head: Vec<char> = Vec::new();
    push_str_chars(&mut head, "Audit: ");
    push_decimal(&mut head, report.manifests_checked as u64);
    push_str_chars(&mut head, " checked, ");
    push_decimal(&mut head, report.manifests_passed as u64);
    push_str_chars(&mut head, " passed, ");
    push_decimal(&mut head, report.manifests_failed as u64);
    push_str_chars(&mut head, " failed, ");
    push_decimal(&mut head, report.manifests_skipped as u64);
    push_str_chars(&mut head, " skipped");
    lines.push(string_from_chars(head.as_slice()));
    if report.manifests_failed > 0 {
        let s = &report.summary;
        let mut counts: Vec<char> = Vec::new();
        push_str_chars(&mut counts, "  Failures: url=");
        push_decimal(&mut counts, s.failed_url as u64);
        push_str_chars(&mut counts, ", version=");
        push_decimal(&mut counts, s.failed_version as u64);
        push_str_chars(&mut counts, ", method=");
        push_decimal(&mut counts, s.failed_install_method as u64);
        push_str_chars(&mut counts, ", precision=");
        push_decimal(&mut counts, s.failed_precision as u64);
        lines.push(string_from_chars(counts.as_slice()));
        let ghost prefix = lines@.map_values(|s: String| s@);
        let mut i: usize = 0;
        while i < report.results.len()
            invariant
                i <= report.results@.len(),
                lines@.map_values(|s: String| s@) == prefix + failure_lines(report.results@.take(i as int)),
            decreases report.results@.len() - i,
        {
            proof {
                assert(report.results@.take(i + 1).drop_last() =~= report.results@.take(i as int));
            }
            let r = &report.results[i];
            if r.status == ResultStatus::Fail {
                let ghost before = lines@.map_values(|s: String| s@);
                let line = failure_line_of(r);
                lines.push(line);
                proof {
                    assert(lines@.map_values(|s: String| s@) =~= before.push(line@));
                }
            }
            i = i + 1;
        }
        proof {
            assert(report.results@.take(report.results@.len() as int) =~= report.results@);
        }
    }
    lines
}

} // verus!
