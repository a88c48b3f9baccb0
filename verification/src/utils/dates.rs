use vstd::prelude::*;

verus! {

/// Whether `chrono` reads a text as a moment in UTC, which it does for the
/// forms of RFC 3339 and a few wider ones.
pub uninterp spec fn timestamp_readable(text: Seq<char>) -> bool;

/// The month, from 1 to 12, of the date and time that `chrono` reads from a
/// text under a format of `strftime`, or nothing where it reads none.
pub uninterp spec fn timestamp_month(text: Seq<char>, format: Seq<char>) -> Option<u32>;

/// Calls the `FromStr` of `chrono::DateTime<Utc>` and tells whether it
/// succeeded. The contract claims that this depends on the text alone.
#[verifier::external_body]
pub(crate) fn is_timestamp(text: &str) -> (r: bool)
    ensures
        r == timestamp_readable(text@),
{
    text.parse::<chrono::DateTime<chrono::Utc>>().is_ok()
}

/// Calls `chrono::NaiveDateTime::parse_from_str`, and `Datelike::month` on
/// what it read. The contract claims that the outcome depends on the text
/// and the format alone, and gives it its name.
#[verifier::external_body]
pub(crate) fn month_in(text: &str, format: &str) -> (r: Option<u32>)
    ensures
        r == timestamp_month(text@, format@),
{
    chrono::NaiveDateTime::parse_from_str(text, format).ok().map(|d| chrono::Datelike::month(&d))
}

/// The text that `chrono` writes, in the form of RFC 3339 and with `Z` for
/// UTC, for the moment that lies `seconds` seconds and `nanos` nanoseconds
/// after the start of 1970, or nothing where it holds no such moment.
pub uninterp spec fn moment_text(seconds: i64, nanos: u32) -> Option<Seq<char>>;

/// Calls `chrono::DateTime::from_timestamp`, and `to_rfc3339_opts` on the
/// moment that it made: with as many digits of the second as the moment
/// needs, in threes, and with `Z`, which is how a moment is written into
/// JSON. The contract claims that the outcome depends on the two numbers
/// alone, and gives it its name.
#[verifier::external_body]
pub(crate) fn write_moment(seconds: i64, nanos: u32) -> (r: Option<String>)
    ensures
        r is Some <==> moment_text(seconds, nanos) is Some,
        r is Some ==> moment_text(seconds, nanos) == Some(r->Some_0@),
{
    chrono::DateTime::from_timestamp(seconds, nanos).map(
        |moment| moment.to_rfc3339_opts(chrono::SecondsFormat::AutoSi, true),
    )
}

} // verus!
