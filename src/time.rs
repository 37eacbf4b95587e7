use vstd::prelude::*;

verus! {

/// An instant in UTC: whole seconds since the Unix epoch and the
/// nanoseconds past that second.
#[derive(Clone, Copy, Debug, PartialEq, Eq, Structural)]
pub struct UtcInstant {
    pub seconds: i64,
    pub nanos: u32,
}

/// What chrono's `DateTime<Utc>` parser makes of a text: the instant as
/// (seconds since the epoch, nanoseconds), or `None` when it rejects it.
pub uninterp spec fn utc_instant_of(text: Seq<char>) -> Option<(i64, u32)>;

/// What chrono's RFC 3339 formatting (second precision, `Z` suffix) makes of
/// the instant that many seconds after the epoch, or `None` when chrono
/// cannot represent that instant.
pub uninterp spec fn utc_rfc3339_of(seconds: int) -> Option<Seq<char>>;

/// Relies on `<chrono::DateTime<chrono::Utc> as FromStr>::from_str` together
/// with `timestamp` and `timestamp_subsec_nanos`: the parse depends on the
/// text alone.
#[verifier::external_body]
pub(crate) fn parse_utc(text: &str) -> (r: Option<(i64, u32)>)
    ensures
        r == utc_instant_of(text@),
{
    text.parse::<chrono::DateTime<chrono::Utc>>().ok().map(|t| (t.timestamp(), t.timestamp_subsec_nanos()))
}

/// Relies on `chrono::DateTime::<Utc>::from_timestamp` (`None` out of range)
/// and `to_rfc3339_opts(SecondsFormat::Secs, true)`: the text depends on the
/// number of seconds alone.
#[verifier::external_body]
pub(crate) fn format_rfc3339_seconds(seconds: i64) -> (r: Option<String>)
    ensures
        match r {
            Some(s) => utc_rfc3339_of(seconds as int) == Some(s@),
            None => utc_rfc3339_of(seconds as int) is None,
        },
{
    chrono::DateTime::<chrono::Utc>::from_timestamp(seconds, 0).map(
        |t| t.to_rfc3339_opts(chrono::SecondsFormat::Secs, true),
    )
}

} // verus!
