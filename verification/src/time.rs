//! Points in time, as they come out of a backup.

use vstd::prelude::*;

verus! {

/// The fallback format of a timestamp: UTC with fractional seconds.
pub const FRACTIONAL_UTC: &'static str = "%Y-%m-%dT%H:%M:%S%.fZ";

/// A point in time in UTC: whole seconds since the Unix epoch and the
/// nanoseconds into that second.
#[derive(Clone, Copy, PartialEq, Eq, Structural, Debug)]
pub struct Timestamp {
    pub secs: i64,
    pub nanos: u32,
}

/// The error of the `chrono` crate's parsers.
#[verifier::external_type_specification]
#[verifier::external_body]
pub struct ExParseError(chrono::ParseError);

/// The point in time that a text names as an RFC 3339 date-time with offset,
/// as the `chrono` crate reads it: seconds since the epoch and nanoseconds, in
/// UTC. Nothing where the crate rejects the text.
pub uninterp spec fn rfc3339_instant(text: Seq<char>) -> Option<(i64, u32)>;

/// The point in time that a text names under a `strftime` format, as the
/// `chrono` crate reads it, in UTC. Nothing where the crate rejects the text or
/// the format, or finds no offset in the text.
pub uninterp spec fn formatted_instant(text: Seq<char>, format: Seq<char>) -> Option<(i64, u32)>;

/// The `chrono` crate's `DateTime::parse_from_rfc3339`, with the result moved to
/// UTC and handed out as seconds and nanoseconds. The parser reads nothing but
/// the text, so what it returns is `rfc3339_instant` of the text.
#[verifier::external_body]
fn parse_rfc3339(text: &str) -> (r: Result<(i64, u32), chrono::ParseError>)
    ensures
        match r {
            Ok(t) => rfc3339_instant(text@) == Some(t),
            Err(_) => rfc3339_instant(text@) is None,
        },
{
    let parsed = chrono::DateTime::parse_from_rfc3339(text)?;
    let utc = parsed.with_timezone(&chrono::Utc);
    Ok((utc.timestamp(), utc.timestamp_subsec_nanos()))
}

/// The `chrono` crate's `DateTime::parse_from_str`, with the result moved to UTC
/// and handed out as seconds and nanoseconds. The parser reads nothing but the
/// text and the format, so what it returns is `formatted_instant` of the two.
#[verifier::external_body]
fn parse_formatted(text: &str, format: &str) -> (r: Result<(i64, u32), chrono::ParseError>)
    ensures
        match r {
            Ok(t) => formatted_instant(text@, format@) == Some(t),
            Err(_) => formatted_instant(text@, format@) is None,
        },
{
    let parsed = chrono::DateTime::parse_from_str(text, format)?;
    let utc = parsed.with_timezone(&chrono::Utc);
    Ok((utc.timestamp(), utc.timestamp_subsec_nanos()))
}

/// The point in time that a timestamp of a backup names: read as RFC 3339
/// first, and under the fallback format where that fails.
pub open spec fn timestamp_of(text: Seq<char>) -> Option<Timestamp> {
    match rfc3339_instant(text) {
        Some(t) => Some(Timestamp { secs: t.0, nanos: t.1 }),
        None => match formatted_instant(text, FRACTIONAL_UTC@) {
            Some(t) => Some(Timestamp { secs: t.0, nanos: t.1 }),
            None => None,
        },
    }
}

/// The point in time that a timestamp of a backup names, if it names one.
pub fn parse_timestamp(text: &str) -> (r: Option<Timestamp>)
    ensures
        r == timestamp_of(text@),
{
    match parse_rfc3339(text) {
        Ok(t) => Some(Timestamp { secs: t.0, nanos: t.1 }),
        Err(_) => match parse_formatted(text, FRACTIONAL_UTC) {
            Ok(t) => Some(Timestamp { secs: t.0, nanos: t.1 }),
            Err(_) => None,
        },
    }
}

} // verus!
