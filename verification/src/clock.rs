//! Points in time, as seconds and nanoseconds since the Unix epoch (UTC).

use vstd::prelude::*;

verus! {

/// A UTC instant: whole seconds since the epoch and the nanoseconds past them.
#[derive(Debug, Clone, Copy, PartialEq, Eq, Structural)]
pub struct Instant {
    pub secs: i64,
    pub nanos: u32,
}

/// `a` lies strictly before `b`.
pub open spec fn before(a: Instant, b: Instant) -> bool {
    a.secs < b.secs || (a.secs == b.secs && a.nanos < b.nanos)
}

/// Whether `a` lies strictly before `b`.
pub fn is_before(a: Instant, b: Instant) -> (r: bool)
    ensures
        r == before(a, b),
{
    a.secs < b.secs || (a.secs == b.secs && a.nanos < b.nanos)
}

/// `a` moved `secs` seconds later.
pub open spec fn plus(a: Instant, secs: int) -> Instant {
    Instant { secs: (a.secs + secs) as i64, nanos: a.nanos }
}

/// `a` plus `secs` seconds.
pub fn add_seconds(a: Instant, secs: i64) -> (r: Instant)
    requires
        i64::MIN <= a.secs + secs <= i64::MAX,
    ensures
        r == plus(a, secs as int),
{
    Instant { secs: a.secs + secs, nanos: a.nanos }
}

/// The instant that `chrono::DateTime::parse_from_rfc3339` reads from
/// `text`, as UTC seconds since the epoch and nanoseconds past them, or
/// `None` when the text is not RFC 3339.
pub uninterp spec fn rfc3339_instant(text: Seq<char>) -> Option<(i64, u32)>;

/// The instant `text` names, when it is RFC 3339.
pub open spec fn rfc3339_time(text: Seq<char>) -> Option<Instant> {
    match rfc3339_instant(text) {
        Some((secs, nanos)) => Some(Instant { secs, nanos }),
        None => None,
    }
}

/// Calls `chrono::DateTime::parse_from_rfc3339(text)` and converts the
/// result to UTC seconds and nanoseconds; the result is
/// `rfc3339_instant(text)`. Which texts parse is left to chrono.
#[verifier::external_body]
pub(crate) fn parse_rfc3339(text: &str) -> (r: Option<(i64, u32)>)
    ensures
        r == rfc3339_instant(text@),
{
    match chrono::DateTime::parse_from_rfc3339(text) {
        Ok(dt) => {
            let utc = dt.to_utc();
            Some((utc.timestamp(), utc.timestamp_subsec_nanos()))
        }
        Err(_) => None,
    }
}

/// Reads an RFC 3339 text as an instant.
pub fn parse_instant(text: &str) -> (r: Option<Instant>)
    ensures
        r == rfc3339_time(text@),
{
    match parse_rfc3339(text) {
        Some((secs, nanos)) => Some(Instant { secs, nanos }),
        None => None,
    }
}

/// The text `chrono`'s `DateTime<Utc>::to_rfc3339` writes for the instant
/// `secs` seconds and `nanos` nanoseconds after the epoch.
pub uninterp spec fn rfc3339_text(secs: i64, nanos: u32) -> Seq<char>;

/// An instant chrono can write: within about 253,000 years of the epoch
/// (chrono's dates run from year -262143 to 262142) and with nanoseconds
/// below one second.
pub open spec fn writable_instant(t: Instant) -> bool {
    -8_000_000_000_000 <= t.secs <= 8_000_000_000_000 && t.nanos < 1_000_000_000
}

/// Calls `chrono::DateTime::from_timestamp(t.secs, t.nanos)` and, when it
/// gives an instant, its `to_rfc3339()`; that text is `rfc3339_text` of the
/// two fields. chrono answers `None` only for seconds out of its range or
/// an invalid nanosecond count, so every `writable_instant` is written.
/// Outside that range (up to chrono's own limits, and leap-second
/// nanoseconds) whether a text comes back is not stated.
#[verifier::external_body]
pub(crate) fn format_rfc3339(t: Instant) -> (r: Option<String>)
    ensures
        r matches Some(s) ==> s@ == rfc3339_text(t.secs, t.nanos),
        writable_instant(t) ==> r is Some,
{
    match chrono::DateTime::from_timestamp(t.secs, t.nanos) {
        Some(dt) => Some(dt.to_rfc3339()),
        None => None,
    }
}

} // verus!
