//! Trusted boundary to the system clock and to RFC-2822 timestamp
//! strings, both provided by the chrono crate.
//!
//! A point in time is carried everywhere else as a plain number of
//! seconds since the Unix epoch, in UTC.

use vstd::prelude::*;

verus! {

/// The last second of the year 9999 (RFC 2822 writes a four-digit year,
/// so later timestamps cannot be formatted).
pub const MAX_RFC2822_SECS: i64 = 253_402_300_799;

/// What chrono's `DateTime::parse_from_rfc2822` makes of a string: the
/// parsed point in time as seconds since the Unix epoch, or nothing when
/// the string is not a valid RFC-2822 date and time. The result is a
/// function of the string alone.
pub uninterp spec fn rfc2822_timestamp(s: Seq<char>) -> Option<i64>;

/// What chrono's `DateTime::to_rfc2822` writes for a UTC timestamp: an
/// RFC-2822 date-and-time string such as "Wed, 18 Feb 2015 23:16:09
/// +0000". The result is a function of the timestamp alone.
pub uninterp spec fn rfc2822_of(secs: i64) -> Seq<char>;

/// Relies on chrono's `Utc::now` and `DateTime::timestamp`: the current
/// time as whole seconds since the Unix epoch. Non-negative because
/// chrono refuses a system clock set before the epoch.
#[verifier::external_body]
pub(crate) fn now_seconds() -> (r: i64)
    ensures
        0 <= r,
{
    chrono::Utc::now().timestamp()
}

/// Relies on chrono's `DateTime::parse_from_rfc2822` and
/// `DateTime::timestamp`: parses an RFC-2822 date-and-time string (in
/// any zone) to the point in time it denotes, as seconds since the Unix
/// epoch, and reports a failure as `None`.
#[verifier::external_body]
pub(crate) fn parse_rfc2822_seconds(s: &str) -> (r: Option<i64>)
    ensures
        r == rfc2822_timestamp(s@),
{
    match chrono::DateTime::parse_from_rfc2822(s) {
        Ok(dt) => Some(dt.timestamp()),
        Err(_) => None,
    }
}

/// Relies on chrono's `DateTime::from_timestamp` and
/// `DateTime::to_rfc2822`: formats a UTC timestamp between the epoch and
/// the end of the year 9999 as an RFC-2822 string, which chrono's own
/// RFC-2822 parser reads back to the same second.
#[verifier::external_body]
pub(crate) fn format_rfc2822(secs: i64) -> (r: String)
    requires
        0 <= secs <= MAX_RFC2822_SECS,
    ensures
        r@ == rfc2822_of(secs),
        rfc2822_timestamp(r@) == Some(secs),
{
    match chrono::DateTime::<chrono::Utc>::from_timestamp(secs, 0) {
        Some(dt) => dt.to_rfc2822(),
        None => String::new(),
    }
}

} // verus!
