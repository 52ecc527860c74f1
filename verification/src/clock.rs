//! Points in time, held as milliseconds since the Unix epoch.

use vstd::prelude::*;

verus! {

#[derive(Clone, Copy, Debug, PartialEq, Eq, Structural)]
pub struct Timestamp {
    pub millis: i64,
}

/// The RFC 3339 text of the instant `millis` milliseconds after the
/// Unix epoch, in UTC; `None` where the instant lies outside the range
/// of dates that `chrono` holds.
pub uninterp spec fn rfc3339_text(millis: int) -> Option<Seq<char>>;

/// The present instant, from `chrono::Utc::now`. Nothing is promised
/// about it.
#[verifier::external_body]
pub(crate) fn now() -> (r: Timestamp) {
    Timestamp { millis: chrono::Utc::now().timestamp_millis() }
}

/// `chrono::DateTime::<Utc>::from_timestamp_millis` followed by
/// `DateTime::to_rfc3339`. The result depends on the instant alone.
#[verifier::external_body]
pub(crate) fn to_rfc3339(t: Timestamp) -> (r: Option<String>)
    ensures
        r.deep_view() == rfc3339_text(t.millis as int),
{
    chrono::DateTime::<chrono::Utc>::from_timestamp_millis(t.millis).map(|d| d.to_rfc3339())
}

/// The text of the instant `millis` milliseconds after the Unix epoch,
/// in UTC, in the form that a pattern asks for, as `chrono` reads
/// patterns; `None` where the instant lies outside the range of dates
/// that `chrono` holds.
pub uninterp spec fn utc_text(millis: int, pattern: Seq<char>) -> Option<Seq<char>>;

/// Whether a pattern, from the place given on, asks for nothing but
/// the digits of the year, the month, the day, the hour, the minute
/// and the second (`%Y`, `%m`, `%d`, `%H`, `%M`, `%S`) among
/// characters that stand for themselves.
pub open spec fn plain_pattern(pattern: Seq<char>, from: int) -> bool
    decreases pattern.len() - from,
{
    if from < 0 || from >= pattern.len() {
        true
    } else if pattern[from] == '%' {
        from + 1 < pattern.len() && (pattern[from + 1] == 'Y' || pattern[from + 1] == 'm'
            || pattern[from + 1] == 'd' || pattern[from + 1] == 'H' || pattern[from + 1] == 'M'
            || pattern[from + 1] == 'S') && plain_pattern(pattern, from + 2)
    } else {
        plain_pattern(pattern, from + 1)
    }
}

/// `chrono::DateTime::<Utc>::from_timestamp_millis` followed by
/// `DateTime::format` with the pattern, and the text of what that
/// gives. The result depends on the instant and the pattern alone. A
/// pattern that `chrono` cannot read is left out: the text of one
/// cannot be had.
#[verifier::external_body]
pub(crate) fn format_utc(t: Timestamp, pattern: &str) -> (r: Option<String>)
    requires
        plain_pattern(pattern@, 0),
    ensures
        r.deep_view() == utc_text(t.millis as int, pattern@),
{
    chrono::DateTime::<chrono::Utc>::from_timestamp_millis(t.millis).map(
        |d| d.format(pattern).to_string(),
    )
}

/// The text of the instant `millis` milliseconds after the Unix epoch
/// in the form `yyyymmddThhmmssZ`, in UTC; `None` where the instant
/// lies outside the range of dates that `chrono` holds.
pub open spec fn compact_utc_text(millis: int) -> Option<Seq<char>> {
    utc_text(millis, "%Y%m%dT%H%M%SZ"@)
}

/// The text of an instant in the form `yyyymmddThhmmssZ`, in UTC.
pub fn to_compact_utc(t: Timestamp) -> (r: Option<String>)
    ensures
        r.deep_view() == compact_utc_text(t.millis as int),
{
    proof {
        reveal_strlit("%Y%m%dT%H%M%SZ");
        reveal_with_fuel(plain_pattern, 16);
    }
    format_utc(t, "%Y%m%dT%H%M%SZ")
}

/// The RFC 3339 text of the instant `millis` milliseconds after the
/// Unix epoch, in UTC, with its milliseconds and with `Z` for the
/// offset; `None` where the instant lies outside the range of dates
/// that `chrono` holds.
pub uninterp spec fn rfc3339_millis_text(millis: int) -> Option<Seq<char>>;

/// `chrono::DateTime::<Utc>::from_timestamp_millis` followed by
/// `DateTime::to_rfc3339_opts` with `SecondsFormat::Millis` and `Z`.
/// The result depends on the instant alone.
#[verifier::external_body]
pub(crate) fn to_rfc3339_millis(t: Timestamp) -> (r: Option<String>)
    ensures
        r.deep_view() == rfc3339_millis_text(t.millis as int),
{
    chrono::DateTime::<chrono::Utc>::from_timestamp_millis(t.millis).map(
        |d| d.to_rfc3339_opts(chrono::SecondsFormat::Millis, true),
    )
}

} // verus!
