//! What the library takes from the machine it runs on: fresh identifiers and
//! the time of day.
use crate::text::opt_text;
use vstd::prelude::*;

verus! {

/// The shape of a hyphenated identifier: 36 characters, with a hyphen after
/// the 8th, 12th, 16th and 20th digit.
pub open spec fn hyphenated(s: Seq<char>) -> bool {
    &&& s.len() == 36
    &&& s[8] == '-'
    &&& s[13] == '-'
    &&& s[18] == '-'
    &&& s[23] == '-'
}

/// Trusted: `uuid::Uuid::new_v4` draws a random identifier, and its `Display`
/// writes it in the hyphenated form. Nothing is claimed of the digits: two
/// calls may or may not differ.
#[verifier::external_body]
pub(crate) fn fresh_identifier() -> (r: String)
    ensures
        hyphenated(r@),
{
    uuid::Uuid::new_v4().to_string()
}

/// Trusted: `chrono::Utc::now`, as microseconds since the Unix epoch
/// (`DateTime::timestamp_micros`). Nothing is claimed of the value: the clock
/// may stand still or be set back between two calls.
#[verifier::external_body]
pub(crate) fn current_time() -> (r: i64) {
    chrono::Utc::now().timestamp_micros()
}

/// The text of a point in time, given in microseconds since the Unix epoch,
/// as `chrono` writes it in RFC 3339, with `Z` for the offset where `use_z`
/// holds and `+00:00` where not; `None` for a time outside `chrono`'s range.
pub uninterp spec fn rfc3339_text(micros: i64, use_z: bool) -> Option<Seq<char>>;

/// The point in time that a text in RFC 3339 stands for, in microseconds
/// since the Unix epoch, as `chrono` reads it; or `chrono`'s error in words.
pub uninterp spec fn rfc3339_micros(s: Seq<char>) -> Result<i64, Seq<char>>;

/// The view of a time read from text, or of the error.
pub open spec fn parsed_time(r: Result<i64, String>) -> Result<i64, Seq<char>> {
    match r {
        Ok(t) => Ok(t),
        Err(e) => Err(e@),
    }
}

/// Trusted: `chrono::DateTime::from_timestamp_micros` makes a UTC time of
/// the microseconds, or `None` out of range, and
/// `DateTime::to_rfc3339_opts` writes it with as many digits of the second's
/// fraction as it needs. The text depends on the two arguments alone and is
/// named `rfc3339_text`.
#[verifier::external_body]
pub(crate) fn rfc3339(micros: i64, use_z: bool) -> (r: Option<String>)
    ensures
        opt_text(r) == rfc3339_text(micros, use_z),
{
    match chrono::DateTime::from_timestamp_micros(micros) {
        Some(time) => Some(time.to_rfc3339_opts(chrono::SecondsFormat::AutoSi, use_z)),
        None => None,
    }
}

/// Trusted: `chrono::DateTime::parse_from_rfc3339` reads a time with its
/// offset, and `DateTime::timestamp_micros` gives the microseconds since the
/// Unix epoch; a text that is no such time gives `chrono`'s error, written
/// out. The result depends on the text alone and is named `rfc3339_micros`.
#[verifier::external_body]
pub(crate) fn parse_rfc3339(s: &str) -> (r: Result<i64, String>)
    ensures
        parsed_time(r) == rfc3339_micros(s@),
{
    match chrono::DateTime::parse_from_rfc3339(s) {
        Ok(d) => Ok(d.timestamp_micros()),
        Err(e) => Err(e.to_string()),
    }
}

} // verus!
