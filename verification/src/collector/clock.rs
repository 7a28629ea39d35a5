//! Time as the collector sees it, and calendar text as `chrono` writes it.

use crate::collector::entry::{option_view, Timestamp};
use vstd::prelude::*;

verus! {

/// The time at which a step is taken. The caller reads both clocks and hands
/// them in.
#[derive(Debug, Clone, Copy)]
pub struct Clock {
    /// Milliseconds of a clock that never goes back, from an arbitrary start.
    pub monotonic_millis: u64,
    /// The time of day in UTC.
    pub wall: Timestamp,
}

/// The instant `secs` seconds and `nanos` nanoseconds after the Unix epoch as
/// RFC 3339 text in UTC with a `Z` suffix and as many fractional digits (none,
/// three, six or nine) as the nanoseconds need; `None` where `chrono` cannot
/// represent the instant.
pub uninterp spec fn utc_rfc3339(secs: int, nanos: int) -> Option<Seq<char>>;

/// The second `secs` after the Unix epoch in UTC as `chrono` writes it with
/// `%Y%m%d%H%M%S`: year, month, day, hour, minute and second without
/// anything between them, fourteen digits for the years 0 to 9999; `None`
/// where `chrono` cannot represent the instant.
pub uninterp spec fn utc_compact(secs: int) -> Option<Seq<char>>;

/// Calls `chrono::DateTime::from_timestamp` and, on its result,
/// `to_rfc3339_opts` with `SecondsFormat::AutoSi` and `Z` for UTC. The
/// contract names the text by the instant. `chrono` represents every second
/// from `DateTime::<Utc>::MIN_UTC` to `MAX_UTC`, whose timestamps are the
/// bounds of `Timestamp`, with any number of nanoseconds below a thousand
/// million: there the text exists.
#[verifier::external_body]
pub(crate) fn rfc3339_text(secs: i64, nanos: u32) -> (r: Option<String>)
    ensures
        option_view(r) == utc_rfc3339(secs as int, nanos as int),
        Timestamp::representable(secs as int, nanos as int) ==> r is Some,
{
    chrono::DateTime::from_timestamp(secs, nanos).map(
        |t| t.to_rfc3339_opts(chrono::SecondsFormat::AutoSi, true),
    )
}

/// Calls `chrono::DateTime::from_timestamp` and, on its result, `format` with
/// `%Y%m%d%H%M%S`. The contract names the text by the second. `chrono`
/// represents every second from `DateTime::<Utc>::MIN_UTC` to `MAX_UTC`,
/// whose timestamps are the bounds of `Timestamp`: there the text exists.
#[verifier::external_body]
pub(crate) fn compact_text(secs: i64) -> (r: Option<String>)
    ensures
        option_view(r) == utc_compact(secs as int),
        Timestamp::representable(secs as int, 0) ==> r is Some,
{
    chrono::DateTime::from_timestamp(secs, 0).map(|t| t.format("%Y%m%d%H%M%S").to_string())
}

/// The instant that a date-and-time text stands for, as seconds since the
/// Unix epoch in UTC and nanoseconds within the second; `None` where `chrono`
/// does not read the text. `chrono` reads RFC 3339 and some looser forms of
/// it, such as a space in place of the `T`.
pub uninterp spec fn rfc3339_parsed(text: Seq<char>) -> Option<(int, int)>;

/// A pair of machine numbers as mathematical numbers.
pub open spec fn instant_view(o: Option<(i64, u32)>) -> Option<(int, int)> {
    match o {
        Some((secs, nanos)) => Some((secs as int, nanos as int)),
        None => None,
    }
}

/// Parses the text as a `chrono::DateTime<Utc>` with `str::parse`, which
/// accepts RFC 3339 and a relaxed form of it, and takes the `timestamp` and
/// `timestamp_subsec_nanos` of what was read. The contract names the instant
/// by the text.
#[verifier::external_body]
pub(crate) fn parse_rfc3339(text: &str) -> (r: Option<(i64, u32)>)
    ensures
        instant_view(r) == rfc3339_parsed(text@),
{
    text.parse::<chrono::DateTime<chrono::Utc>>().ok().map(
        |t| (t.timestamp(), t.timestamp_subsec_nanos()),
    )
}

} // verus!
