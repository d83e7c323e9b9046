//! Per-provider pause windows after rate-limit responses.
use vstd::prelude::*;
use std::time::Instant;
use crate::numeric::{parse_u64, parse_unsigned};
use crate::text::{chars_of, str_equals, string_from_str};

verus! {

#[verifier::external_type_specification]
#[verifier::external_body]
pub struct ExInstant(std::time::Instant);

/// The current instant of the monotonic clock (std `Instant::now`).
/// Nothing is promised of the value.
#[verifier::external_body]
fn instant_now() -> (r: Instant) {
    Instant::now()
}

/// Nanoseconds elapsed since `origin` on the monotonic clock
/// (std `Instant::elapsed`, as nanoseconds). Nothing is promised of the value.
#[verifier::external_body]
fn nanos_since(origin: &Instant) -> (r: u128) {
    origin.elapsed().as_nanos()
}

/// Nanoseconds in one second.
pub const NANOS_PER_SEC: u128 = 1_000_000_000;

/// Pause used when a rate-limit response gives no usable `retry-after`: 60 seconds.
pub const DEFAULT_PAUSE_SECS: u64 = 60;

/// Tracks per-provider rate limit pause windows. Times are nanoseconds on
/// the monotonic clock, counted from the moment the limiter was created. The
/// deadlines are a list of `(provider, deadline)` pairs, the first entry for a
/// provider counting, rather than a `String`-keyed `HashMap`, of which Verus
/// proves nothing.
pub struct RateLimiter {
    origin: Instant,
    paused_until: Vec<(String, u128)>,
}

/// The pause deadline recorded for `provider`, if any.
pub open spec fn deadline_in(v: Seq<(Seq<char>, u128)>, provider: Seq<char>) -> Option<u128>
    decreases v.len(),
{
    if v.len() == 0 {
        None
    } else if v[0].0 == provider {
        Some(v[0].1)
    } else {
        deadline_in(v.drop_first(), provider)
    }
}

/// The pause seconds asked for by a `retry-after` value: its number of
/// seconds when it reads as a `u64`, otherwise 60.
pub open spec fn pause_secs(retry_after: Option<Seq<char>>) -> nat {
    match retry_after {
        Some(v) => match parse_unsigned(v, u64::MAX as nat) {
            Some(n) => n,
            None => DEFAULT_PAUSE_SECS as nat,
        },
        None => DEFAULT_PAUSE_SECS as nat,
    }
}

/// The view of an optional `retry-after` value.
pub open spec fn retry_after_view(v: Option<&str>) -> Option<Seq<char>> {
    match v {
        Some(s) => Some(s@),
        None => None,
    }
}

/// The pause a `retry-after` value asks for, in nanoseconds.
pub open spec fn pause_nanos(retry_after: Option<Seq<char>>) -> u128 {
    (pause_secs(retry_after) * NANOS_PER_SEC) as u128
}

/// Whether a provider with this deadline is paused at `now`.
pub open spec fn paused_at(deadline: Option<u128>, now: u128) -> bool {
    deadline matches Some(d) && now < d
}

/// The time left of a pause with this deadline at `now`, if it has not ended.
pub open spec fn time_left(deadline: Option<u128>, now: u128) -> Option<u128> {
    match deadline {
        Some(d) => if now < d {
            Some((d - now) as u128)
        } else {
            None
        },
        None => None,
    }
}

/// The end of a pause of `duration` nanoseconds from `now`; a pause that would
/// end past the clock's range ends at its last instant.
pub open spec fn paused_deadline(now: u128, duration: u128) -> u128 {
    if duration > u128::MAX - now {
        u128::MAX
    } else {
        (now + duration) as u128
    }
}

impl RateLimiter {
    /// The recorded deadlines, by provider.
    pub closed spec fn deadlines(&self) -> Seq<(Seq<char>, u128)> {
        self.paused_until@.map_values(|p: (String, u128)| (p.0@, p.1))
    }

    /// The pause deadline of `provider`, if one was recorded.
    pub open spec fn deadline(&self, provider: Seq<char>) -> Option<u128> {
        deadline_in(self.deadlines(), provider)
    }

    /// A limiter with no provider paused.
    pub fn new() -> (r: Self)
        ensures
            forall|p: Seq<char>| r.deadline(p) is None,
    {
        RateLimiter { origin: instant_now(), paused_until: Vec::new() }
    }

    fn position(&self, provider: &str) -> (r: Option<usize>)
        ensures
            match r {
                Some(i) => i < self.deadlines().len() && self.deadlines()[i as int].0 == provider@
                    && forall|k: int| 0 <= k < i ==> self.deadlines()[k].0 != provider@,
                None => forall|k: int| 0 <= k < self.deadlines().len() ==> self.deadlines()[k].0 != provider@,
            },
    {
        let mut i: usize = 0;
        while i < self.paused_until.len()
            invariant
                i <= self.deadlines().len(),
                self.deadlines().len() == self.paused_until@.len(),
                forall|k: int| 0 <= k < i ==> self.deadlines()[k].0 != provider@,
            decreases self.paused_until@.len() - i,
        {
            proof {
                assert(self.deadlines()[i as int].0 == self.paused_until@[i as int].0@);
            }
            if str_equals(self.paused_until[i].0.as_str(), provider) {
                return Some(i);
            }
            i = i + 1;
        }
        None
    }

    proof fn lemma_deadline_at(v: Seq<(Seq<char>, u128)>, provider: Seq<char>, i: int)
        requires
            0 <= i < v.len(),
            v[i].0 == provider,
            forall|k: int| 0 <= k < i ==> v[k].0 != provider,
        ensures
            deadline_in(v, provider) == Some(v[i].1),
        decreases i,
    {
        if i > 0 {
            Self::lemma_deadline_at(v.drop_first(), provider, i - 1);
        }
    }

    proof fn lemma_deadline_absent(v: Seq<(Seq<char>, u128)>, provider: Seq<char>)
        requires
            forall|k: int| 0 <= k < v.len() ==> v[k].0 != provider,
        ensures
            deadline_in(v, provider) is None,
        decreases v.len(),
    {
        if v.len() > 0 {
            Self::lemma_deadline_absent(v.drop_first(), provider);
        }
    }

    proof fn lemma_deadline_update(v: Seq<(Seq<char>, u128)>, i: int, d: u128, q: Seq<char>)
        requires
            0 <= i < v.len(),
        ensures
            q != v[i].0 ==> deadline_in(v.update(i, (v[i].0, d)), q) == deadline_in(v, q),
        decreases i,
    {
        let w = v.update(i, (v[i].0, d));
        if i > 0 {
            Self::lemma_deadline_update(v.drop_first(), i - 1, d, q);
            assert(w.drop_first() =~= v.drop_first().update(i - 1, (v[i].0, d)));
            assert(w[0] == v[0]);
        } else {
            assert(w.drop_first() =~= v.drop_first());
            assert(w[0].0 == v[0].0);
        }
    }

    proof fn lemma_deadline_push(v: Seq<(Seq<char>, u128)>, p: (Seq<char>, u128), q: Seq<char>)
        ensures
            deadline_in(v, q) is Some ==> deadline_in(v.push(p), q) == deadline_in(v, q),
            deadline_in(v, q) is None ==> deadline_in(v.push(p), q) == if p.0 == q {
                Some(p.1)
            } else {
                None
            },
        decreases v.len(),
    {
        if v.len() > 0 {
            Self::lemma_deadline_push(v.drop_first(), p, q);
            assert(v.push(p).drop_first() =~= v.drop_first().push(p));
            assert(v.push(p)[0] == v[0]);
        } else {
            assert(v.push(p).drop_first() =~= Seq::<(Seq<char>, u128)>::empty());
            assert(v.push(p)[0] == p);
            assert(deadline_in(v.push(p).drop_first(), q) is None);
        }
    }

    /// Whether `provider` is paused at time `now`.
    pub fn is_paused_at(&self, provider: &str, now: u128) -> (r: bool)
        ensures
            r == paused_at(self.deadline(provider@), now),
    {
        match self.position(provider) {
            Some(i) => {
                proof {
                    Self::lemma_deadline_at(self.deadlines(), provider@, i as int);
                }
                now < self.paused_until[i].1
            },
            None => {
                proof {
                    Self::lemma_deadline_absent(self.deadlines(), provider@);
                }
                false
            },
        }
    }

    /// Check if a provider is currently paused due to rate limiting.
    pub fn is_paused(&self, provider: &str) -> (r: bool)
        ensures
            exists|now: u128| r == #[trigger] paused_at(self.deadline(provider@), now),
    {
        let now = nanos_since(&self.origin);
        self.is_paused_at(provider, now)
    }

    /// Time left in the pause of `provider` at time `now`, if it is paused then.
    pub fn remaining_at(&self, provider: &str, now: u128) -> (r: Option<u128>)
        ensures
            r == time_left(self.deadline(provider@), now),
    {
        match self.position(provider) {
            Some(i) => {
                proof {
                    Self::lemma_deadline_at(self.deadlines(), provider@, i as int);
                }
                let until = self.paused_until[i].1;
                if now < until {
                    Some(until - now)
                } else {
                    None
                }
            },
            None => {
                proof {
                    Self::lemma_deadline_absent(self.deadlines(), provider@);
                }
                None
            },
        }
    }

    /// Get remaining pause time (nanoseconds) for a provider, if paused.
    pub fn remaining(&self, provider: &str) -> (r: Option<u128>)
        ensures
            exists|now: u128| r == #[trigger] time_left(self.deadline(provider@), now),
    {
        let now = nanos_since(&self.origin);
        self.remaining_at(provider, now)
    }

    /// Pause `provider` from `now` for `duration` nanoseconds; the deadlines of
    /// other providers are kept.
    pub fn pause_at(&mut self, provider: &str, duration: u128, now: u128)
        requires
            now + duration <= u128::MAX,
        ensures
            final(self).deadline(provider@) == Some((now + duration) as u128),
            forall|q: Seq<char>| q != provider@ ==> final(self).deadline(q) == old(self).deadline(q),
    {
        let until = now + duration;
        match self.position(provider) {
            Some(i) => {
                let ghost before = self.deadlines();
                let name = string_from_str(provider);
                self.paused_until.set(i, (name, until));
                proof {
                    assert(self.deadlines() =~= before.update(i as int, (before[i as int].0, until)));
                    Self::lemma_deadline_at(self.deadlines(), provider@, i as int);
                    assert forall|q: Seq<char>| q != provider@ implies self.deadline(q) == old(self).deadline(q) by {
                        Self::lemma_deadline_update(before, i as int, until, q);
                    }
                }
            },
            None => {
                let ghost before = self.deadlines();
                proof {
                    Self::lemma_deadline_absent(before, provider@);
                }
                self.paused_until.push((string_from_str(provider), until));
                proof {
                    assert(self.deadlines() =~= before.push((provider@, until)));
                    Self::lemma_deadline_push(before, (provider@, until), provider@);
                    assert forall|q: Seq<char>| q != provider@ implies self.deadline(q) == old(self).deadline(q) by {
                        Self::lemma_deadline_push(before, (provider@, until), q);
                    }
                }
            },
        }
    }

    /// Pause a provider for a given duration in nanoseconds (from retry-after
    /// or backoff), starting now.
    pub fn pause(&mut self, provider: &str, duration: u128)
        ensures
            exists|now: u128| final(self).deadline(provider@) == Some(#[trigger] paused_deadline(now, duration)),
            forall|q: Seq<char>| q != provider@ ==> final(self).deadline(q) == old(self).deadline(q),
    {
        let now = nanos_since(&self.origin);
        let d = if duration > u128::MAX - now { u128::MAX - now } else { duration };
        self.pause_at(provider, d, now);
        proof {
            assert(self.deadline(provider@) == Some(paused_deadline(now, duration)));
        }
    }

    /// Record a rate limit response at time `now`: the provider is paused for
    /// the seconds `retry_after` gives, or 60 seconds.
    pub fn record_rate_limit_at(&mut self, provider: &str, retry_after: Option<&str>, now: u128)
        requires
            now <= u64::MAX,
        ensures
            final(self).deadline(provider@) == Some(
                (now + pause_secs(
                    match retry_after {
                        Some(v) => Some(v@),
                        None => None,
                    },
                ) * NANOS_PER_SEC) as u128,
            ),
            forall|q: Seq<char>| q != provider@ ==> final(self).deadline(q) == old(self).deadline(q),
    {
        let secs: u64 = match retry_after {
            Some(v) => match parse_u64(chars_of(v).as_slice()) {
                Some(n) => n,
                None => DEFAULT_PAUSE_SECS,
            },
            None => DEFAULT_PAUSE_SECS,
        };
        let duration = (secs as u128) * NANOS_PER_SEC;
        self.pause_at(provider, duration, now);
    }

    /// Record a rate limit response. The pause comes from `retry-after`
    /// (seconds) or is 60 seconds.
    pub fn record_rate_limit(&mut self, provider: &str, retry_after: Option<&str>)
        ensures
            exists|now: u128|
                final(self).deadline(provider@) == Some(
                    #[trigger] paused_deadline(now, pause_nanos(retry_after_view(retry_after))),
                ),
            forall|q: Seq<char>| q != provider@ ==> final(self).deadline(q) == old(self).deadline(q),
    {
        let secs: u64 = match retry_after {
            Some(v) => match parse_u64(chars_of(v).as_slice()) {
                Some(n) => n,
                None => DEFAULT_PAUSE_SECS,
            },
            None => DEFAULT_PAUSE_SECS,
        };
        let duration = (secs as u128) * NANOS_PER_SEC;
        proof {
            assert(duration == pause_nanos(retry_after_view(retry_after)));
        }
        self.pause(provider, duration);
        proof {
            let now = choose|now: u128| self.deadline(provider@) == Some(#[trigger] paused_deadline(now, duration));
            assert(self.deadline(provider@) == Some(paused_deadline(now, pause_nanos(retry_after_view(retry_after)))));
        }
    }
}

impl Default for RateLimiter {
    fn default() -> (r: Self)
        ensures
            forall|p: Seq<char>| r.deadline(p) is None,
    {
        RateLimiter::new()
    }
}

/// A provider is reported paused exactly when time is left in its pause, and
/// a provider that was never paused is never reported paused: through a run
/// of limiters from a fresh one, where each step records a pause of one
/// provider and keeps the others' deadlines (as `pause`, `pause_at`,
/// `record_rate_limit` and `record_rate_limit_at` do), a provider that no step
/// paused has no deadline, is paused at no time and has no time left.
pub proof fn law_never_paused(limiters: Seq<RateLimiter>, paused: Seq<Seq<char>>, q: Seq<char>)
    requires
        limiters.len() == paused.len() + 1,
        forall|p: Seq<char>| limiters[0].deadline(p) is None,
        forall|i: int, p: Seq<char>|
            0 <= i < paused.len() && p != paused[i] ==> #[trigger] limiters[i + 1].deadline(p) == limiters[i].deadline(p),
        !paused.contains(q),
    ensures
        forall|d: Option<u128>, now: u128| #[trigger] paused_at(d, now) == (time_left(d, now) is Some),
        limiters.last().deadline(q) is None,
        forall|now: u128| !#[trigger] paused_at(limiters.last().deadline(q), now) && time_left(limiters.last().deadline(q), now) is None,
    decreases paused.len(),
{
    if paused.len() > 0 {
        let n = paused.len() - 1;
        assert(paused[n] != q) by {
            if paused[n] == q {
                assert(paused.contains(q));
            }
        }
        assert(!paused.drop_last().contains(q)) by {
            if paused.drop_last().contains(q) {
                let j = choose|j: int| 0 <= j < paused.drop_last().len() && paused.drop_last()[j] == q;
                assert(paused[j] == q);
            }
        }
        assert forall|i: int, p: Seq<char>|
            0 <= i < paused.drop_last().len() && p != paused.drop_last()[i] implies #[trigger] limiters.drop_last()[i + 1].deadline(p)
            == limiters.drop_last()[i].deadline(p) by {
            assert(limiters[i + 1].deadline(p) == limiters[i].deadline(p));
        }
        law_never_paused(limiters.drop_last(), paused.drop_last(), q);
        assert(limiters[n + 1].deadline(q) == limiters[n].deadline(q));
    }
}

/// Once paused at `now` for `duration`, a provider is paused exactly until
/// the deadline, and the time remaining counts down to it.
pub proof fn law_pause_window(r: RateLimiter, provider: Seq<char>, duration: u128, now: u128, later: u128)
    requires
        r.deadline(provider) == Some((now + duration) as u128),
        now + duration <= u128::MAX,
    ensures
        (later < now + duration) == (r.deadline(provider) matches Some(d) && later < d),
        later < now + duration ==> (now + duration - later) as u128 > 0,
{
}

} // verus!
