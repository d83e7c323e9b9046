//! When a request is sent again: transient failures are retried with
//! exponential backoff.
use vstd::prelude::*;

verus! {

/// `2^n`.
pub open spec fn two_to(n: nat) -> nat
    decreases n,
{
    if n == 0 {
        1
    } else {
        2 * two_to((n - 1) as nat)
    }
}

/// The backoff before retry number `attempt + 1`, in milliseconds: 1 s,
/// then 2 s, 4 s, ... doubling each time.
pub open spec fn backoff_millis(attempt: nat) -> nat {
    1000 * two_to(attempt)
}

proof fn lemma_two_to_bound(n: nat)
    requires
        n <= 54,
    ensures
        1000 * two_to(n) <= 1000 * two_to(54),
        1000 * two_to(54) < u64::MAX,
    decreases n,
{
    reveal_with_fuel(two_to, 55);
    if n > 0 && n < 54 {
        lemma_two_to_bound((n - 1) as nat);
        lemma_two_to_monotone(n, 54);
    } else if n == 0 {
        lemma_two_to_monotone(0, 54);
    }
}

proof fn lemma_two_to_monotone(a: nat, b: nat)
    requires
        a <= b,
    ensures
        two_to(a) <= two_to(b),
    decreases b,
{
    if a < b {
        lemma_two_to_monotone(a, (b - 1) as nat);
    }
}

/// The backoff before retry number `attempt + 1`, in milliseconds.
pub fn backoff_delay(attempt: u32) -> (r: u64)
    requires
        attempt <= 54,
    ensures
        r == backoff_millis(attempt as nat),
{
    proof {
        lemma_two_to_bound(attempt as nat);
    }
    let mut d: u64 = 1000;
    let mut i: u32 = 0;
    while i < attempt
        invariant
            i <= attempt <= 54,
            d == 1000 * two_to(i as nat),
            1000 * two_to(attempt as nat) < u64::MAX,
        decreases attempt - i,
    {
        proof {
            lemma_two_to_monotone((i + 1) as nat, attempt as nat);
            assert(two_to((i + 1) as nat) == 2 * two_to(i as nat));
        }
        d = d * 2;
        i = i + 1;
    }
    d
}

/// How one attempt of a request ended.
#[derive(Debug, Clone, Copy, PartialEq, Eq, Structural)]
pub enum AttemptResult {
    /// The server answered with this status.
    Answered(u16),
    /// The request failed; whether the failure is transient (a timeout, a
    /// connection failure, or a failure to send the request).
    Failed { transient: bool },
}

/// What to do after an attempt.
#[derive(Debug, Clone, Copy, PartialEq, Eq, Structural)]
pub enum RetryDecision {
    /// Hand the answer (or the error) to the caller.
    Finish,
    /// Wait this many milliseconds, then try again.
    RetryAfter(u64),
}

/// Whether an attempt is retried: a server error (5xx) or a transient failure,
/// while retries are left.
pub open spec fn retried(attempt: u32, max_retries: u32, result: AttemptResult) -> bool {
    attempt < max_retries && match result {
        AttemptResult::Answered(s) => 500 <= s <= 599,
        AttemptResult::Failed { transient } => transient,
    }
}

/// What follows attempt number `attempt` (counting from 0) of a request that
/// may be retried `max_retries` times.
pub fn retry_decision(attempt: u32, max_retries: u32, result: AttemptResult) -> (r: RetryDecision)
    requires
        attempt < max_retries ==> attempt <= 54,
    ensures
        retried(attempt, max_retries, result) ==> r == RetryDecision::RetryAfter(backoff_millis(attempt as nat) as u64),
        !retried(attempt, max_retries, result) ==> r == RetryDecision::Finish,
{
    let retry = attempt < max_retries && match result {
        AttemptResult::Answered(s) => 500 <= s && s <= 599,
        AttemptResult::Failed { transient } => transient,
    };
    if retry {
        RetryDecision::RetryAfter(backoff_delay(attempt))
    } else {
        RetryDecision::Finish
    }
}

/// The last attempt is never retried, so a request is sent at most
/// `max_retries + 1` times; and each backoff is twice the one before.
pub proof fn law_retries_bounded(max_retries: u32, result: AttemptResult, attempt: nat)
    ensures
        !retried(max_retries, max_retries, result),
        backoff_millis(attempt + 1) == 2 * backoff_millis(attempt),
{
    assert(two_to(attempt + 1) == 2 * two_to(attempt));
}

} // verus!
