//! Timestamp helpers backed by chrono: the current time, RFC 2822 parsing
//! and human-readable formatting.

use vstd::prelude::*;

verus! {

/// What chrono's RFC 2822 parser makes of a date string, as a Unix
/// timestamp; the result is a function of the text alone.
pub uninterp spec fn rfc2822_ts(s: Seq<char>) -> Option<i64>;

/// What chrono renders a Unix timestamp as, in `%Y-%m-%d %H:%M:%S` form;
/// `None` exactly for timestamps outside chrono's representable range. The
/// result is a function of the timestamp alone.
pub uninterp spec fn formatted_ts(t: i64) -> Option<Seq<char>>;

/// Seconds since the Unix epoch, read from the system clock.
/// Relies on chrono::Utc::now; nothing is promised of the value.
#[verifier::external_body]
pub fn now_timestamp() -> (r: i64) {
    chrono::Utc::now().timestamp()
}

/// Relies on chrono::DateTime::parse_from_rfc2822 and DateTime::timestamp:
/// parses an RFC 2822 date, deterministically in its input.
#[verifier::external_body]
pub fn parse_rfc2822_timestamp(s: &str) -> (r: Option<i64>)
    ensures
        r == rfc2822_ts(s@),
{
    chrono::DateTime::parse_from_rfc2822(s).ok().map(|dt| dt.timestamp())
}

/// Relies on chrono::DateTime::from_timestamp and DateTime::format:
/// renders a timestamp, deterministically in its input.
#[verifier::external_body]
pub fn format_timestamp(t: i64) -> (r: Option<String>)
    ensures
        match r {
            Some(s) => formatted_ts(t) == Some(s@),
            None => formatted_ts(t) is None,
        },
{
    chrono::DateTime::from_timestamp(t, 0).map(|dt| dt.format("%Y-%m-%d %H:%M:%S").to_string())
}

/// The rendered form of a timestamp, with a fixed fallback for timestamps
/// chrono cannot represent.
pub open spec fn spec_formatted_or_unknown(t: i64) -> Seq<char> {
    match formatted_ts(t) {
        Some(s) => s,
        None => "Unknown"@,
    }
}

/// Renders a timestamp for display, falling back to "Unknown".
pub fn format_timestamp_or_unknown(t: i64) -> (r: String)
    ensures
        r@ == spec_formatted_or_unknown(t),
{
    match format_timestamp(t) {
        Some(s) => s,
        None => String::from_str("Unknown"),
    }
}

} // verus!
