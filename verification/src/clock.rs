//! The clock, and times as texts.

use chrono::TimeZone;
use vstd::prelude::*;

use crate::text::opt_text;

verus! {

/// Whether a number of seconds since 1970 is within the years that chrono can
/// hold.
pub open spec fn in_range(secs: i64) -> bool {
    -8_000_000_000_000 <= secs <= 8_210_266_876_799
}

/// Whether a time is an ordinary one: within the years that chrono can hold, and
/// no leap second. A time is in seconds since 1970 and the nanoseconds beyond
/// them.
pub open spec fn ordinary(secs: i64, nanos: u32) -> bool {
    in_range(secs) && nanos < 1_000_000_000
}

/// Calls `chrono::Utc::now`, and gives the time as `timestamp` and
/// `timestamp_subsec_nanos` do: seconds since 1970 and nanoseconds. `Utc::now`
/// returns no time before 1970, none that chrono cannot hold, and no leap
/// second; which time it is depends on the clock.
#[verifier::external_body]
pub(crate) fn clock_time() -> (r: (i64, u32))
    ensures
        ordinary(r.0, r.1),
        r.0 >= 0,
{
    let now = chrono::Utc::now();
    (now.timestamp(), now.timestamp_subsec_nanos())
}

/// The time of the clock in milliseconds since 1970, which is not before that.
pub(crate) fn now_millis() -> (r: i64)
    ensures
        r >= 0,
{
    let (secs, nanos) = clock_time();
    secs * 1000 + nanos as i64 / 1_000_000
}

/// What chrono makes of a number of seconds since 1970 when it formats the
/// time in UTC; `None` where the number is out of its range.
pub uninterp spec fn utc_text(secs: i64, pattern: Seq<char>) -> Option<Seq<char>>;

/// The patterns that times are formatted with.
pub open spec fn known_pattern(pattern: Seq<char>) -> bool {
    ||| pattern == "%Y-%m-%d %H:%M UTC"@
    ||| pattern == "%Y-%m-%d %H:%M"@
    ||| pattern == "%Y-%m-%d"@
    ||| pattern == "%Y-%m-%d (Mon)"@
    ||| pattern == "%H:%M"@
}

/// Calls `chrono::TimeZone::timestamp_opt` on `chrono::Utc` and formats the
/// time it gives with `DateTime::format`. The contract names the resulting
/// text; a number of seconds that chrono cannot hold gives `None`. Formatting
/// panics on a malformed pattern, so only patterns that are known to be well
/// formed are taken.
#[verifier::external_body]
pub(crate) fn format_utc(secs: i64, pattern: &str) -> (r: Option<String>)
    requires
        known_pattern(pattern@),
    ensures
        opt_text(r) == utc_text(secs, pattern@),
        in_range(secs) ==> r is Some,
{
    chrono::Utc.timestamp_opt(secs, 0).single().map(|t| t.format(pattern).to_string())
}

/// Whether a text is what some time of the clock, which is not before 1970,
/// gives when it is formatted in UTC.
pub open spec fn by_the_clock(text: Seq<char>, pattern: Seq<char>) -> bool {
    exists|secs: i64| secs >= 0 && #[trigger] utc_text(secs, pattern) == Some(text)
}

/// The time of the clock, formatted in UTC.
pub(crate) fn format_now(pattern: &str) -> (r: String)
    requires
        known_pattern(pattern@),
    ensures
        by_the_clock(r@, pattern@),
{
    let (secs, _nanos) = clock_time();
    match format_utc(secs, pattern) {
        Some(text) => {
            assert(utc_text(secs, pattern@) == Some(text@));
            text
        },
        None => String::new(),
    }
}

/// A number of seconds as chrono takes it: the same bits, as a signed number.
pub open spec fn signed(secs: u64) -> i64 {
    secs as i64
}

/// A number of seconds as chrono takes it.
pub(crate) fn as_signed(secs: u64) -> (r: i64)
    ensures
        r == signed(secs),
{
    #[verifier::truncate]
    (secs as i64)
}

} // verus!
