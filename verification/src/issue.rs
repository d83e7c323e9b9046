//! Which issues to open and close for persistent check failures, and their text.
use vstd::prelude::*;
use crate::clock::{chrono_utc_date, chrono_whole_days, now_utc, utc_date, whole_days_between, Timestamp};
use crate::manifest::Manifest;
use crate::numeric::{decimal, push_decimal};
use crate::state::{state_issue_to_close, state_needs_issue, CheckerState, ManifestStateView};
use crate::text::{concat2, concat3, push_str_chars, str_equals, string_from_chars, string_from_str};

verus! {

/// The issues created and closed in one run, by manifest id and issue number.
#[derive(Debug, Clone)]
pub struct IssueReport {
    pub created: Vec<(String, u64)>,
    pub closed: Vec<(String, u64)>,
}

impl Default for IssueReport {
    fn default() -> (r: Self)
        ensures
            r.created@.len() == 0,
            r.closed@.len() == 0,
    {
        IssueReport { created: Vec::new(), closed: Vec::new() }
    }
}

/// The ids, in entry order, whose state calls for a new issue.
pub open spec fn ids_needing_issue(entries: Seq<(Seq<char>, ManifestStateView)>) -> Seq<Seq<char>>
    decreases entries.len(),
{
    if entries.len() == 0 {
        Seq::empty()
    } else {
        let rest = ids_needing_issue(entries.drop_last());
        if state_needs_issue(entries.last().1) {
            rest.push(entries.last().0)
        } else {
            rest
        }
    }
}

/// The ids and issue numbers, in entry order, of issues to close.
pub open spec fn issues_closing(entries: Seq<(Seq<char>, ManifestStateView)>) -> Seq<(Seq<char>, u64)>
    decreases entries.len(),
{
    if entries.len() == 0 {
        Seq::empty()
    } else {
        let rest = issues_closing(entries.drop_last());
        match state_issue_to_close(entries.last().1) {
            Some(n) => rest.push((entries.last().0, n)),
            None => rest,
        }
    }
}

/// The title of the issue about a failing manifest.
pub open spec fn issue_title_text(id: Seq<char>) -> Seq<char> {
    "Version check failing: "@ + id
}

/// The body of the issue about a failing manifest.
pub open spec fn issue_body_text(id: Seq<char>, s: ManifestStateView) -> Seq<char> {
    "The version check for `"@ + id + "` has failed for "@ + decimal(s.consecutive_failures as nat)
        + " consecutive pipeline runs.\n\nLast error: "@ + match s.last_error {
        Some(e) => e,
        None => "unknown"@,
    } + "\n\nThis issue was auto-created by the checker pipeline."@
}

/// The title of the issue about a failing manifest.
pub fn issue_title(id: &str) -> (r: String)
    ensures
        r@ == issue_title_text(id@),
{
    concat2("Version check failing: ", id)
}

impl CheckerState {
    /// The manifests whose failures reached the threshold with no issue open.
    pub fn issues_to_create(&self) -> (r: Vec<String>)
        ensures
            r@.map_values(|s: String| s@) == ids_needing_issue(self.entries()),
    {
        let mut out: Vec<String> = Vec::new();
        let mut i: usize = 0;
        while i < self.manifests.len()
            invariant
                i <= self.manifests@.len(),
                out@.map_values(|s: String| s@) == ids_needing_issue(self.entries().take(i as int)),
            decreases self.manifests@.len() - i,
        {
            proof {
                assert(self.entries().take(i + 1).drop_last() =~= self.entries().take(i as int));
                assert(self.entries().take(i + 1).last() == (self.manifests@[i as int].0@, self.manifests@[i as int].1@));
            }
            let s = &self.manifests[i].1;
            if s.consecutive_failures >= crate::state::FAILURE_THRESHOLD && s.issue_number.is_none() {
                let ghost before = out@;
                out.push(string_from_str(self.manifests[i].0.as_str()));
                proof {
                    assert(out@.map_values(|s: String| s@) =~= before.map_values(|s: String| s@).push(self.manifests@[i as int].0@));
                }
            }
            i = i + 1;
        }
        proof {
            assert(self.entries().take(self.manifests@.len() as int) =~= self.entries());
        }
        out
    }

    /// The open issues of manifests whose failures were reset.
    pub fn issues_to_close(&self) -> (r: Vec<(String, u64)>)
        ensures
            r@.map_values(|p: (String, u64)| (p.0@, p.1)) == issues_closing(self.entries()),
    {
        let mut out: Vec<(String, u64)> = Vec::new();
        let mut i: usize = 0;
        while i < self.manifests.len()
            invariant
                i <= self.manifests@.len(),
                out@.map_values(|p: (String, u64)| (p.0@, p.1)) == issues_closing(self.entries().take(i as int)),
            decreases self.manifests@.len() - i,
        {
            proof {
                assert(self.entries().take(i + 1).drop_last() =~= self.entries().take(i as int));
                assert(self.entries().take(i + 1).last() == (self.manifests@[i as int].0@, self.manifests@[i as int].1@));
            }
            let s = &self.manifests[i].1;
            if s.consecutive_failures == 0 {
                if let Some(n) = s.issue_number {
                    let ghost before = out@;
                    out.push((string_from_str(self.manifests[i].0.as_str()), n));
                    proof {
                        assert(out@.map_values(|p: (String, u64)| (p.0@, p.1)) =~= before.map_values(|p: (String, u64)| (p.0@, p.1)).push((self.manifests@[i as int].0@, n)));
                    }
                }
            }
            i = i + 1;
        }
        proof {
            assert(self.entries().take(self.manifests@.len() as int) =~= self.entries());
        }
        out
    }

    /// The body of the issue about a failing manifest, if it has a state.
    pub fn issue_body(&self, id: &str) -> (r: Option<String>)
        ensures
            match self.entry(id@) {
                Some(s) => r matches Some(b) && b@ == issue_body_text(id@, s),
                None => r is None,
            },
    {
        let pos = crate::keyed::position_of(&self.manifests, id);
        proof {
            match pos {
                Some(i) => {
                    assert forall|k: int| 0 <= k < i implies self.entries()[k].0 != id@ by {
                        assert(self.entries()[k].0 == self.manifests@[k].0@);
                    }
                    crate::keyed::lemma_first_with_at(self.entries(), id@, i as int);
                },
                None => {
                    assert forall|k: int| 0 <= k < self.entries().len() implies self.entries()[k].0 != id@ by {
                        assert(self.entries()[k].0 == self.manifests@[k].0@);
                    }
                    crate::keyed::lemma_first_with_absent(self.entries(), id@);
                },
            }
        }
        match pos {
            Some(i) => {
                let s = &self.manifests[i].1;
                let mut out: Vec<char> = Vec::new();
                push_str_chars(&mut out, "The version check for `");
                push_str_chars(&mut out, id);
                push_str_chars(&mut out, "` has failed for ");
                push_decimal(&mut out, s.consecutive_failures as u64);
                push_str_chars(&mut out, " consecutive pipeline runs.\n\nLast error: ");
                match &s.last_error {
                    Some(e) => push_str_chars(&mut out, e.as_str()),
                    None => push_str_chars(&mut out, "unknown"),
                }
                push_str_chars(&mut out, "\n\nThis issue was auto-created by the checker pipeline.");
                proof {
                    assert(out@ =~= issue_body_text(id@, s@));
                }
                Some(string_from_chars(out.as_slice()))
            },
            None => None,
        }
    }
}

/// The views of a report's list of issues.
pub open spec fn issues_view(v: Seq<(String, u64)>) -> Seq<(Seq<char>, u64)> {
    v.map_values(|p: (String, u64)| (p.0@, p.1))
}

/// Records an issue opened for a manifest: its state now holds the issue
/// number, and the report lists it among the created ones.
pub fn record_issue_created(state: &mut CheckerState, report: &mut IssueReport, id: &str, number: u64)
    ensures
        old(state).entry(id@) matches Some(s) ==> final(state).entry(id@) == Some(
            ManifestStateView { issue_number: Some(number), ..s },
        ),
        old(state).entry(id@) is None ==> final(state).entry(id@) is None,
        forall|q: Seq<char>| q != id@ ==> final(state).entry(q) == old(state).entry(q),
        final(state).manual_reminder_issue == old(state).manual_reminder_issue,
        old(state).ids_distinct() ==> final(state).ids_distinct(),
        issues_view(final(report).created@) == issues_view(old(report).created@).push((id@, number)),
        final(report).closed@ == old(report).closed@,
{
    state.set_issue_number(id, Some(number));
    let ghost before = issues_view(report.created@);
    report.created.push((string_from_str(id), number));
    proof {
        assert(issues_view(report.created@) =~= before.push((id@, number)));
    }
}

/// Records an issue closed for a manifest: its state no longer holds an issue,
/// and the report lists it among the closed ones.
pub fn record_issue_closed(state: &mut CheckerState, report: &mut IssueReport, id: &str, number: u64)
    ensures
        old(state).entry(id@) matches Some(s) ==> final(state).entry(id@) == Some(
            ManifestStateView { issue_number: None, ..s },
        ),
        old(state).entry(id@) is None ==> final(state).entry(id@) is None,
        forall|q: Seq<char>| q != id@ ==> final(state).entry(q) == old(state).entry(q),
        final(state).manual_reminder_issue == old(state).manual_reminder_issue,
        old(state).ids_distinct() ==> final(state).ids_distinct(),
        issues_view(final(report).closed@) == issues_view(old(report).closed@).push((id@, number)),
        final(report).created@ == old(report).created@,
{
    state.set_issue_number(id, None);
    let ghost before = issues_view(report.closed@);
    report.closed.push((string_from_str(id), number));
    proof {
        assert(issues_view(report.closed@) =~= before.push((id@, number)));
    }
}

/// The GitHub API URL of a repository's issues.
pub open spec fn issues_endpoint(repo: Seq<char>) -> Seq<char> {
    "https://api.github.com/repos/"@ + repo + "/issues"@
}

/// The GitHub API URL that creates issues in a repository (`owner/repo`).
pub fn issues_url(repo: &str) -> (r: String)
    ensures
        r@ == issues_endpoint(repo@),
{
    concat3("https://api.github.com/repos/", repo, "/issues")
}

/// The GitHub API URL of one issue of a repository.
pub fn issue_url(repo: &str, number: u64) -> (r: String)
    ensures
        r@ == issues_endpoint(repo@) + "/"@ + decimal(number as nat),
{
    let mut out: Vec<char> = Vec::new();
    push_str_chars(&mut out, "https://api.github.com/repos/");
    push_str_chars(&mut out, repo);
    push_str_chars(&mut out, "/issues/");
    push_decimal(&mut out, number);
    proof {
        reveal_strlit("/issues/");
        reveal_strlit("/issues");
        reveal_strlit("/");
        assert(out@ =~= issues_endpoint(repo@) + "/"@ + decimal(number as nat));
    }
    string_from_chars(out.as_slice())
}

/// The title of the issue reminding maintainers of manually checked packages.
pub open spec fn reminder_title_text() -> Seq<char> {
    "Manual version check reminder"@
}

/// The title of the issue reminding maintainers of manually checked packages.
pub fn reminder_title() -> (r: String)
    ensures
        r@ == reminder_title_text(),
{
    string_from_str("Manual version check reminder")
}

/// Whether a manifest's version is checked by hand.
pub open spec fn is_manual_manifest(m: Manifest) -> bool {
    m.checkver matches Some(cv) && cv.provider@ == "manual"@
}

/// The manifests whose versions are checked by hand, in order.
pub open spec fn manual_manifests(ms: Seq<Manifest>) -> Seq<Manifest>
    decreases ms.len(),
{
    if ms.len() == 0 {
        Seq::empty()
    } else if is_manual_manifest(ms.last()) {
        manual_manifests(ms.drop_last()).push(ms.last())
    } else {
        manual_manifests(ms.drop_last())
    }
}

/// When a maintainer last confirmed a manifest, as the state records it.
pub open spec fn last_confirmed(state: CheckerState, id: Seq<char>) -> Option<Timestamp> {
    match state.entry(id) {
        Some(s) => s.last_manual_update,
        None => None,
    }
}

/// The days since the last confirmation, or `never` (also when the count is negative).
pub open spec fn days_cell(last: Option<Timestamp>, now: Timestamp) -> Seq<char> {
    match last {
        Some(t) => match chrono_whole_days(t.secs, t.nanos, now.secs, now.nanos) {
            Some(d) => if d < 0 {
                "never"@
            } else {
                decimal(d as nat)
            },
            None => "never"@,
        },
        None => "never"@,
    }
}

/// The date of the last confirmation, or `never`.
pub open spec fn date_cell(last: Option<Timestamp>) -> Seq<char> {
    match last {
        Some(t) => match chrono_utc_date(t.secs, t.nanos) {
            Some(d) => d,
            None => "never"@,
        },
        None => "never"@,
    }
}

/// The table row of one manually checked manifest.
pub open spec fn reminder_row(state: CheckerState, m: Manifest, now: Timestamp) -> Seq<char> {
    let last = last_confirmed(state, m.id@);
    "| "@ + m.id@ + " | "@ + date_cell(last) + " | "@ + days_cell(last, now) + " |\n"@
}

/// The table rows of manifests, in order.
pub open spec fn reminder_rows(state: CheckerState, ms: Seq<Manifest>, now: Timestamp) -> Seq<char>
    decreases ms.len(),
{
    if ms.len() == 0 {
        Seq::empty()
    } else {
        reminder_rows(state, ms.drop_last(), now) + reminder_row(state, ms.last(), now)
    }
}

/// The head of the reminder's table.
pub open spec fn reminder_head() -> Seq<char> {
    "The following packages use manual version checking and may need review:\n\n| Package | Last Updated | Days Since Update |\n|---------|-------------|-------------------|\n"@
}

/// The closing line of the reminder.
pub open spec fn reminder_foot() -> Seq<char> {
    "\n*This issue is auto-updated by the checker pipeline.*"@
}

/// The reminder's body at `now`: a table of the manually checked manifests
/// with when each was last confirmed; none when no manifest is checked by hand.
pub open spec fn reminder_text(state: CheckerState, ms: Seq<Manifest>, now: Timestamp) -> Option<Seq<char>> {
    let manual = manual_manifests(ms);
    if manual.len() == 0 {
        None
    } else {
        Some(reminder_head() + reminder_rows(state, manual, now) + reminder_foot())
    }
}

fn push_row(out: &mut Vec<char>, state: &CheckerState, m: &Manifest, now: Timestamp)
    ensures
        final(out)@ == old(out)@ + reminder_row(*state, *m, now),
{
    let last: Option<Timestamp> = match state.find(m.id.as_str()) {
        Some(i) => state.manifests[i].1.last_manual_update,
        None => None,
    };
    push_str_chars(out, "| ");
    push_str_chars(out, m.id.as_str());
    push_str_chars(out, " | ");
    match last {
        Some(t) => match utc_date(t) {
            Some(d) => push_str_chars(out, d.as_str()),
            None => push_str_chars(out, "never"),
        },
        None => push_str_chars(out, "never"),
    }
    push_str_chars(out, " | ");
    match last {
        Some(t) => match whole_days_between(t, now) {
            Some(d) => if d < 0 {
                push_str_chars(out, "never");
            } else {
                push_decimal(out, d as u64);
            },
            None => push_str_chars(out, "never"),
        },
        None => push_str_chars(out, "never"),
    }
    push_str_chars(out, " |\n");
    proof {
        assert(out@ =~= old(out)@ + reminder_row(*state, *m, now));
    }
}

/// The body of the reminder issue about manually checked packages at `now`;
/// `None` when no manifest is checked by hand.
pub fn reminder_body_at(state: &CheckerState, manifests: &Vec<Manifest>, now: Timestamp) -> (r: Option<String>)
    ensures
        match r {
            Some(b) => reminder_text(*state, manifests@, now) == Some(b@),
            None => reminder_text(*state, manifests@, now) is None,
        },
{
    let mut rows: Vec<char> = Vec::new();
    let mut any = false;
    let mut i: usize = 0;
    while i < manifests.len()
        invariant
            i <= manifests@.len(),
            rows@ == reminder_rows(*state, manual_manifests(manifests@.take(i as int)), now),
            any == (manual_manifests(manifests@.take(i as int)).len() > 0),
        decreases manifests@.len() - i,
    {
        proof {
            assert(manifests@.take(i + 1).drop_last() =~= manifests@.take(i as int));
        }
        let m = &manifests[i];
        let manual = match &m.checkver {
            Some(cv) => str_equals(cv.provider.as_str(), "manual"),
            None => false,
        };
        if manual {
            let ghost before = manual_manifests(manifests@.take(i as int));
            push_row(&mut rows, state, m, now);
            any = true;
            proof {
                assert(before.push(*m).drop_last() =~= before);
                assert(manual_manifests(manifests@.take(i + 1)) == before.push(*m));
            }
        }
        i = i + 1;
    }
    proof {
        assert(manifests@.take(manifests@.len() as int) =~= manifests@);
    }
    if !any {
        return None;
    }
    let mut out: Vec<char> = Vec::new();
    push_str_chars(&mut out, "The following packages use manual version checking and may need review:\n\n| Package | Last Updated | Days Since Update |\n|---------|-------------|-------------------|\n");
    crate::text::push_all(&mut out, rows.as_slice());
    push_str_chars(&mut out, "\n*This issue is auto-updated by the checker pipeline.*");
    Some(string_from_chars(out.as_slice()))
}

/// The body of the reminder issue about manually checked packages, as of now.
pub fn reminder_body(state: &CheckerState, manifests: &Vec<Manifest>) -> (r: Option<String>)
    ensures
        exists|now: Timestamp| match r {
            Some(b) => reminder_text(*state, manifests@, now) == Some(b@),
            None => reminder_text(*state, manifests@, now) is None,
        },
{
    let now = now_utc();
    reminder_body_at(state, manifests, now)
}

/// No manifest is both due a new issue and due a closing: a new issue needs
/// failures at the threshold, a closing needs them reset.
pub proof fn law_create_and_close_exclusive(s: ManifestStateView)
    ensures
        !(state_needs_issue(s) && state_issue_to_close(s) is Some),
{
}

} // verus!
