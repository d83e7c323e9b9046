//! Points in time, as plain values.
use vstd::prelude::*;

verus! {

/// A UTC point in time: seconds since the Unix epoch and the nanoseconds
/// within that second.
#[derive(Debug, Clone, Copy, PartialEq, Eq, Structural)]
pub struct Timestamp {
    pub secs: i64,
    pub nanos: u32,
}

/// The current UTC time (`chrono::Utc::now`). Nothing is promised of the value.
#[verifier::external_body]
pub(crate) fn now_utc() -> (r: Timestamp) {
    let t = chrono::Utc::now();
    Timestamp { secs: t.timestamp(), nanos: t.timestamp_subsec_nanos() }
}

/// What chrono counts as the whole days from the first instant to the second
/// (`(to - from).num_days()` on `DateTime<Utc>` values), or `None` when either
/// pair of seconds and nanoseconds is not a chrono time.
pub uninterp spec fn chrono_whole_days(from_secs: i64, from_nanos: u32, to_secs: i64, to_nanos: u32) -> Option<i64>;

/// The UTC calendar date of an instant as chrono writes it with `%Y-%m-%d`,
/// or `None` when the seconds and nanoseconds are not a chrono time.
pub uninterp spec fn chrono_utc_date(secs: i64, nanos: u32) -> Option<Seq<char>>;

/// Whole days from `from` to `to`: builds both instants with
/// `chrono::DateTime::from_timestamp` and calls `num_days` on their difference.
#[verifier::external_body]
pub(crate) fn whole_days_between(from: Timestamp, to: Timestamp) -> (r: Option<i64>)
    ensures
        r == chrono_whole_days(from.secs, from.nanos, to.secs, to.nanos),
{
    let a = chrono::DateTime::from_timestamp(from.secs, from.nanos)?;
    let b = chrono::DateTime::from_timestamp(to.secs, to.nanos)?;
    Some((b - a).num_days())
}

/// The UTC date of an instant, `YYYY-MM-DD`: builds it with
/// `chrono::DateTime::from_timestamp` and formats it with `%Y-%m-%d`.
#[verifier::external_body]
pub(crate) fn utc_date(t: Timestamp) -> (r: Option<String>)
    ensures
        match r {
            Some(s) => chrono_utc_date(t.secs, t.nanos) == Some(s@),
            None => chrono_utc_date(t.secs, t.nanos) is None,
        },
{
    let d = chrono::DateTime::from_timestamp(t.secs, t.nanos)?;
    Some(d.format("%Y-%m-%d").to_string())
}

} // verus!
