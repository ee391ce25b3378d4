//! Wall-clock time, identifiers and timestamp text. Timestamps are held as
//! microseconds since the Unix epoch, in UTC.
use vstd::prelude::*;


verus! {

/// The current time, read with `chrono::Utc::now`, in microseconds since
/// the Unix epoch. `Utc::now` returns only for a clock at or after the
/// epoch (it panics otherwise), so the value is not negative; which value
/// it is depends on the machine's clock and is not stated.
#[verifier::external_body]
pub(crate) fn now_micros() -> (r: i64)
    ensures
        r >= 0,
{
    chrono::Utc::now().timestamp_micros()
}

/// A lowercase hexadecimal digit or the hyphen of a UUID's text form.
pub open spec fn uuid_char(c: char) -> bool {
    ('0' <= c && c <= '9') || ('a' <= c && c <= 'f') || c == '-'
}

/// A random (version 4) UUID in its hyphenated lowercase text form:
/// 8-4-4-4-12 hexadecimal digits, the version digit `4` and a variant digit
/// of `8`, `9`, `a` or `b`.
pub open spec fn uuid_text(s: Seq<char>) -> bool {
    &&& s.len() == 36
    &&& forall|i: int| 0 <= i < 36 ==> uuid_char(#[trigger] s[i])
    &&& forall|i: int| 0 <= i < 36 ==> (#[trigger] s[i] == '-' <==> (i == 8 || i == 13 || i == 18 || i == 23))
    &&& s[14] == '4'
    &&& (s[19] == '8' || s[19] == '9' || s[19] == 'a' || s[19] == 'b')
}

/// A fresh random identifier from `uuid::Uuid::new_v4`, written in
/// `Uuid`'s `Display` form: hyphenated lowercase hexadecimal. `new_v4`
/// fixes the version nibble to 4 and the variant bits to `10`, so the text
/// holds `4` at position 14 and one of `8`, `9`, `a`, `b` at position 19;
/// which random digits fill the rest is not stated.
#[verifier::external_body]
pub(crate) fn new_uuid() -> (r: String)
    ensures
        uuid_text(r@),
{
    uuid::Uuid::new_v4().to_string()
}

/// What `DateTime::<Utc>::to_rfc3339` writes for the instant `micros`
/// microseconds after the Unix epoch, or empty text where
/// `DateTime::from_timestamp_micros` has no such instant.
pub uninterp spec fn rfc3339_text(micros: i64) -> Seq<char>;

/// The RFC 3339 text of an instant, from `chrono`'s
/// `DateTime::from_timestamp_micros` and `to_rfc3339`. The contract names
/// the result `rfc3339_text`.
#[verifier::external_body]
pub(crate) fn rfc3339(micros: i64) -> (r: String)
    ensures
        r@ == rfc3339_text(micros),
{
    chrono::DateTime::from_timestamp_micros(micros).map(|d| d.to_rfc3339()).unwrap_or_default()
}

/// What `chrono::DateTime::parse_from_rfc3339` gives for a text, as
/// microseconds since the Unix epoch, or `None` where it refuses the text.
pub uninterp spec fn rfc3339_micros(s: Seq<char>) -> Option<i64>;

/// Parses RFC 3339 text with `chrono::DateTime::parse_from_rfc3339` and
/// converts the instant to UTC microseconds; the contract names the result
/// `rfc3339_micros`.
#[verifier::external_body]
pub(crate) fn parse_rfc3339(s: &str) -> (r: Option<i64>)
    ensures
        r == rfc3339_micros(s@),
{
    chrono::DateTime::parse_from_rfc3339(s).ok().map(
        |d| d.with_timezone(&chrono::Utc).timestamp_micros(),
    )
}

/// What `chrono` writes for an instant under the pattern `%Y-%m-%dT%H:%M:%S`,
/// or empty text for an instant outside chrono's range.
pub uninterp spec fn iso_seconds_text(micros: i64) -> Seq<char>;

/// Formats an instant with `chrono`'s `format("%Y-%m-%dT%H:%M:%S")`; the
/// contract names the result `iso_seconds_text`.
#[verifier::external_body]
pub(crate) fn iso_seconds(micros: i64) -> (r: String)
    ensures
        r@ == iso_seconds_text(micros),
{
    chrono::DateTime::from_timestamp_micros(micros).map(
        |d| d.format("%Y-%m-%dT%H:%M:%S").to_string(),
    ).unwrap_or_default()
}

/// What `chrono` writes for an instant under the pattern `%b %e %H:%M:%S`,
/// or empty text for an instant outside chrono's range.
pub uninterp spec fn syslog_time_text(micros: i64) -> Seq<char>;

/// Formats an instant with `chrono`'s `format("%b %e %H:%M:%S")`; the
/// contract names the result `syslog_time_text`.
#[verifier::external_body]
pub(crate) fn syslog_time(micros: i64) -> (r: String)
    ensures
        r@ == syslog_time_text(micros),
{
    chrono::DateTime::from_timestamp_micros(micros).map(
        |d| d.format("%b %e %H:%M:%S").to_string(),
    ).unwrap_or_default()
}

} // verus!
