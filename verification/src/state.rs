//! Checker state: consecutive failures per manifest, and when to open or
//! close an issue about them.
use vstd::prelude::*;
use crate::clock::{now_utc, Timestamp};
use crate::keyed::{
    first_with, lemma_first_with_absent, lemma_first_with_at, lemma_first_with_push,
    lemma_first_with_update, position_of,
};
use crate::numeric::{decimal, push_decimal};
use crate::outside_text::opt_view;
use crate::text::{push_str_chars, string_from_chars, string_from_str};

verus! {

/// Consecutive failures after which an issue is opened.
pub const FAILURE_THRESHOLD: u32 = 8;

/// Per-manifest checker state, tracking failure counts for auto-issue creation.
#[derive(Debug, Clone)]
pub struct ManifestState {
    pub consecutive_failures: u32,
    pub last_checked: Timestamp,
    pub last_error: Option<String>,
    pub issue_number: Option<u64>,
    /// When a maintainer last confirmed a manually checked package.
    pub last_manual_update: Option<Timestamp>,
}

/// A manifest's state as plain values.
pub struct ManifestStateView {
    pub consecutive_failures: u32,
    pub last_checked: Timestamp,
    pub last_error: Option<Seq<char>>,
    pub issue_number: Option<u64>,
    pub last_manual_update: Option<Timestamp>,
}

impl View for ManifestState {
    type V = ManifestStateView;

    open spec fn view(&self) -> ManifestStateView {
        ManifestStateView {
            consecutive_failures: self.consecutive_failures,
            last_checked: self.last_checked,
            last_error: opt_view(self.last_error),
            issue_number: self.issue_number,
            last_manual_update: self.last_manual_update,
        }
    }
}

/// The full checker state file (`checker-state.json`): the state of each
/// manifest by id (the first entry with an id counts). The map is a list of
/// `(id, state)` pairs: with `String` keys Verus proves nothing of a std
/// `HashMap` (not even its length after one `insert`), while a list's
/// contents are exact.
#[derive(Debug, Clone)]
pub struct CheckerState {
    pub manifests: Vec<(String, ManifestState)>,
    /// The open issue reminding maintainers of manually checked packages.
    pub manual_reminder_issue: Option<u64>,
}

impl Default for CheckerState {
    fn default() -> (r: Self)
        ensures
            r.manifests@.len() == 0,
            r.manual_reminder_issue is None,
            r.ids_distinct(),
    {
        CheckerState { manifests: Vec::new(), manual_reminder_issue: None }
    }
}

/// Whether a state calls for a new issue: at the threshold and none open.
pub open spec fn state_needs_issue(s: ManifestStateView) -> bool {
    s.consecutive_failures >= FAILURE_THRESHOLD && s.issue_number is None
}

/// The issue to close for a state: its open issue, once the failures are reset.
pub open spec fn state_issue_to_close(s: ManifestStateView) -> Option<u64> {
    if s.consecutive_failures == 0 {
        s.issue_number
    } else {
        None
    }
}

/// A manifest's state after a successful check at `now`.
pub open spec fn after_success(old: Option<ManifestStateView>, now: Timestamp) -> ManifestStateView {
    ManifestStateView {
        consecutive_failures: 0,
        last_checked: now,
        last_error: None,
        issue_number: match old {
            Some(s) => s.issue_number,
            None => None,
        },
        last_manual_update: match old {
            Some(s) => s.last_manual_update,
            None => None,
        },
    }
}

/// A manifest's state after a failed check at `now` with an error message.
pub open spec fn after_failure(old: Option<ManifestStateView>, now: Timestamp, error: Seq<char>) -> ManifestStateView {
    ManifestStateView {
        consecutive_failures: match old {
            Some(s) => (s.consecutive_failures + 1) as u32,
            None => 1,
        },
        last_checked: now,
        last_error: Some(error),
        issue_number: match old {
            Some(s) => s.issue_number,
            None => None,
        },
        last_manual_update: match old {
            Some(s) => s.last_manual_update,
            None => None,
        },
    }
}

impl CheckerState {
    /// The entries as plain values.
    pub open spec fn entries(&self) -> Seq<(Seq<char>, ManifestStateView)> {
        self.manifests@.map_values(|p: (String, ManifestState)| (p.0@, p.1@))
    }

    /// The state recorded for a manifest id.
    pub open spec fn entry(&self, id: Seq<char>) -> Option<ManifestStateView> {
        first_with(self.entries(), id)
    }

    /// Whether no manifest id occurs twice (as in the state file, a map by id).
    pub open spec fn ids_distinct(&self) -> bool {
        forall|i: int, j: int|
            0 <= i < j < self.manifests@.len() ==> #[trigger] self.manifests@[i].0@ != #[trigger] self.manifests@[j].0@
    }

    pub(crate) fn find(&self, id: &str) -> (r: Option<usize>)
        ensures
            match r {
                Some(i) => i < self.manifests@.len() && self.entry(id@) == Some(self.manifests@[i as int].1@),
                None => self.entry(id@) is None,
            },
    {
        let r = position_of(&self.manifests, id);
        proof {
            match r {
                Some(i) => {
                    assert forall|k: int| 0 <= k < i implies self.entries()[k].0 != id@ by {
                        assert(self.entries()[k].0 == self.manifests@[k].0@);
                    }
                    lemma_first_with_at(self.entries(), id@, i as int);
                },
                None => {
                    assert forall|k: int| 0 <= k < self.entries().len() implies self.entries()[k].0 != id@ by {
                        assert(self.entries()[k].0 == self.manifests@[k].0@);
                    }
                    lemma_first_with_absent(self.entries(), id@);
                },
            }
        }
        r
    }

    /// Replaces the state of `id` (or adds it), keeping every other id's state.
    fn put(&mut self, id: &str, state: ManifestState)
        ensures
            final(self).entry(id@) == Some(state@),
            forall|q: Seq<char>| q != id@ ==> final(self).entry(q) == old(self).entry(q),
            final(self).manual_reminder_issue == old(self).manual_reminder_issue,
            old(self).ids_distinct() ==> final(self).ids_distinct(),
    {
        let ghost before = self.entries();
        match position_of(&self.manifests, id) {
            Some(i) => {
                let name = string_from_str(id);
                self.manifests.set(i, (name, state));
                proof {
                    assert(self.entries() =~= before.update(i as int, (before[i as int].0, state@)));
                    assert forall|k: int| 0 <= k < i implies self.entries()[k].0 != id@ by {
                        assert(self.entries()[k].0 == self.manifests@[k].0@);
                    }
                    lemma_first_with_at(self.entries(), id@, i as int);
                    assert forall|q: Seq<char>| q != id@ implies self.entry(q) == old(self).entry(q) by {
                        lemma_first_with_update(before, i as int, state@, q);
                    }
                }
            },
            None => {
                proof {
                    assert forall|k: int| 0 <= k < before.len() implies before[k].0 != id@ by {
                        assert(before[k].0 == self.manifests@[k].0@);
                    }
                    lemma_first_with_absent(before, id@);
                }
                self.manifests.push((string_from_str(id), state));
                proof {
                    assert(self.entries() =~= before.push((id@, state@)));
                    lemma_first_with_push(before, (id@, state@), id@);
                    assert forall|q: Seq<char>| q != id@ implies self.entry(q) == old(self).entry(q) by {
                        lemma_first_with_push(before, (id@, state@), q);
                    }
                }
            },
        }
    }

    /// Record a successful check at `now`: the failure count and last error
    /// are reset, the open issue is kept.
    pub fn record_success_at(&mut self, id: &str, now: Timestamp)
        ensures
            final(self).entry(id@) == Some(after_success(old(self).entry(id@), now)),
            forall|q: Seq<char>| q != id@ ==> final(self).entry(q) == old(self).entry(q),
            final(self).manual_reminder_issue == old(self).manual_reminder_issue,
            old(self).ids_distinct() ==> final(self).ids_distinct(),
    {
        let (issue_number, last_manual_update) = match self.find(id) {
            Some(i) => (self.manifests[i].1.issue_number, self.manifests[i].1.last_manual_update),
            None => (None, None),
        };
        let state = ManifestState {
            consecutive_failures: 0,
            last_checked: now,
            last_error: None,
            issue_number,
            last_manual_update,
        };
        self.put(id, state);
    }

    /// Record a successful check for a manifest. Resets failure count.
    pub fn record_success(&mut self, id: &str)
        ensures
            exists|now: Timestamp| final(self).entry(id@) == Some(after_success(old(self).entry(id@), now)),
            forall|q: Seq<char>| q != id@ ==> final(self).entry(q) == old(self).entry(q),
            final(self).manual_reminder_issue == old(self).manual_reminder_issue,
            old(self).ids_distinct() ==> final(self).ids_distinct(),
    {
        let now = now_utc();
        self.record_success_at(id, now);
    }

    /// Record a failed check at `now`: the failure count goes up by one and the
    /// error is kept.
    pub fn record_failure_at(&mut self, id: &str, error: &str, now: Timestamp)
        requires
            old(self).entry(id@) matches Some(s) ==> s.consecutive_failures < u32::MAX,
        ensures
            final(self).entry(id@) == Some(after_failure(old(self).entry(id@), now, error@)),
            forall|q: Seq<char>| q != id@ ==> final(self).entry(q) == old(self).entry(q),
            final(self).manual_reminder_issue == old(self).manual_reminder_issue,
            old(self).ids_distinct() ==> final(self).ids_distinct(),
    {
        let (failures, issue_number, last_manual_update) = match self.find(id) {
            Some(i) => (
                self.manifests[i].1.consecutive_failures + 1,
                self.manifests[i].1.issue_number,
                self.manifests[i].1.last_manual_update,
            ),
            None => (1, None, None),
        };
        let state = ManifestState {
            consecutive_failures: failures,
            last_checked: now,
            last_error: Some(string_from_str(error)),
            issue_number,
            last_manual_update,
        };
        self.put(id, state);
    }

    /// Record a failed check for a manifest. Increments failure count.
    pub fn record_failure(&mut self, id: &str, error: &str)
        requires
            old(self).entry(id@) matches Some(s) ==> s.consecutive_failures < u32::MAX,
        ensures
            exists|now: Timestamp| final(self).entry(id@) == Some(after_failure(old(self).entry(id@), now, error@)),
            forall|q: Seq<char>| q != id@ ==> final(self).entry(q) == old(self).entry(q),
            final(self).manual_reminder_issue == old(self).manual_reminder_issue,
            old(self).ids_distinct() ==> final(self).ids_distinct(),
    {
        let now = now_utc();
        self.record_failure_at(id, error, now);
    }

    /// Check if a manifest has reached the persistent failure threshold (8 consecutive).
    pub fn needs_issue(&self, id: &str) -> (r: bool)
        ensures
            r == (self.entry(id@) matches Some(s) && state_needs_issue(s)),
    {
        match self.find(id) {
            Some(i) => self.manifests[i].1.consecutive_failures >= FAILURE_THRESHOLD
                && self.manifests[i].1.issue_number.is_none(),
            None => false,
        }
    }

    /// Check if a manifest's issue should be closed (was failing, now succeeded).
    pub fn should_close_issue(&self, id: &str) -> (r: Option<u64>)
        ensures
            r == match self.entry(id@) {
                Some(s) => state_issue_to_close(s),
                None => None,
            },
    {
        match self.find(id) {
            Some(i) => if self.manifests[i].1.consecutive_failures == 0 {
                self.manifests[i].1.issue_number
            } else {
                None
            },
            None => None,
        }
    }

    /// Records the issue now open (or none) for a manifest that has a state.
    pub fn set_issue_number(&mut self, id: &str, number: Option<u64>)
        ensures
            old(self).entry(id@) matches Some(s) ==> final(self).entry(id@) == Some(
                ManifestStateView { issue_number: number, ..s },
            ),
            old(self).entry(id@) is None ==> final(self).entry(id@) is None,
            forall|q: Seq<char>| q != id@ ==> final(self).entry(q) == old(self).entry(q),
            final(self).manual_reminder_issue == old(self).manual_reminder_issue,
            old(self).ids_distinct() ==> final(self).ids_distinct(),
    {
        match self.find(id) {
            Some(i) => {
                let s = &self.manifests[i].1;
                let updated = ManifestState {
                    consecutive_failures: s.consecutive_failures,
                    last_checked: s.last_checked,
                    last_error: match &s.last_error {
                        Some(e) => Some(string_from_str(e.as_str())),
                        None => None,
                    },
                    issue_number: number,
                    last_manual_update: s.last_manual_update,
                };
                self.put(id, updated);
            },
            None => {},
        }
    }
}

/// A successful check closes the way for a new issue and hands back the open
/// one for closing; a failure adds exactly one to the count; reaching the
/// threshold with no issue open calls for one.
pub proof fn law_issue_lifecycle(old: Option<ManifestStateView>, now: Timestamp, error: Seq<char>)
    requires
        old matches Some(s) ==> s.consecutive_failures < u32::MAX,
    ensures
        !state_needs_issue(after_success(old, now)),
        state_issue_to_close(after_success(old, now)) == match old {
            Some(s) => s.issue_number,
            None => None,
        },
        after_failure(old, now, error).consecutive_failures == match old {
            Some(s) => s.consecutive_failures + 1,
            None => 1,
        },
        state_issue_to_close(after_failure(old, now, error)) is None,
        (old matches Some(s) && s.consecutive_failures + 1 >= FAILURE_THRESHOLD && s.issue_number is None)
            ==> state_needs_issue(after_failure(old, now, error)),
{
}

/// A manifest's state after failed checks in a row, one per `(time, error)`
/// event, starting from `start`.
pub open spec fn after_failures(start: Option<ManifestStateView>, events: Seq<(Timestamp, Seq<char>)>) -> Option<ManifestStateView>
    decreases events.len(),
{
    if events.len() == 0 {
        start
    } else {
        let e = events.last();
        Some(after_failure(after_failures(start, events.drop_last()), e.0, e.1))
    }
}

/// The failure count of an optional state (none counts as zero).
pub open spec fn failures_of(s: Option<ManifestStateView>) -> nat {
    match s {
        Some(v) => v.consecutive_failures as nat,
        None => 0,
    }
}

/// Failed checks in a row add one each to the failure count and leave the
/// open issue as it was; so from no state, `k` failures in a row give a count
/// of `k` and call for an issue exactly when `k` reaches the threshold (8),
/// and with an issue open none is called for.
pub proof fn law_failures_in_a_row(start: Option<ManifestStateView>, events: Seq<(Timestamp, Seq<char>)>)
    requires
        failures_of(start) + events.len() <= u32::MAX,
    ensures
        events.len() > 0 ==> after_failures(start, events) is Some,
        failures_of(after_failures(start, events)) == failures_of(start) + events.len(),
        events.len() > 0 ==> after_failures(start, events).unwrap().issue_number == match start {
            Some(s) => s.issue_number,
            None => None,
        },
        events.len() > 0 ==> (state_needs_issue(after_failures(start, events).unwrap()) <==> (
            failures_of(start) + events.len() >= FAILURE_THRESHOLD && match start {
                Some(s) => s.issue_number is None,
                None => true,
            })),
        start is None && events.len() > 0 ==> (state_needs_issue(after_failures(start, events).unwrap())
            <==> events.len() >= FAILURE_THRESHOLD),
    decreases events.len(),
{
    if events.len() > 0 {
        law_failures_in_a_row(start, events.drop_last());
    }
}

/// Starting from no state, eight failures in a row call for an issue and
/// seven do not.
pub proof fn law_eight_failures(now: Timestamp, error: Seq<char>)
    ensures
        ({
            let s1 = after_failure(None, now, error);
            let s7 = after_failure(Some(after_failure(Some(after_failure(Some(after_failure(Some(after_failure(Some(after_failure(Some(s1), now, error)), now, error)), now, error)), now, error)), now, error)), now, error);
            let s8 = after_failure(Some(s7), now, error);
            !state_needs_issue(s7) && state_needs_issue(s8)
        }),
{
}

} // verus!
