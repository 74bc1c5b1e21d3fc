//! Instants and time zones, as seconds since the Unix epoch and IANA zone
//! names; the zone database and calendar arithmetic come from chrono.

use vstd::prelude::*;

verus! {

/// Whether `name` is a zone of the IANA database.
pub uninterp spec fn is_known_zone(name: Seq<char>) -> bool;

/// The instant an RFC 3339 timestamp denotes, in seconds since the Unix
/// epoch (rounded down to the second), or `None` when the text is not RFC
/// 3339.
pub uninterp spec fn rfc3339_instant(text: Seq<char>) -> Option<int>;

/// The wall-clock time `YYYY-MM-DD hh:mm:ss` in zone `zone` at the instant
/// `secs` seconds after the Unix epoch, or `None` when the zone is unknown
/// or the instant is beyond the calendar's range.
pub uninterp spec fn local_time_text(zone: Seq<char>, secs: int) -> Option<Seq<char>>;

/// Relies on chrono_tz's `FromStr for Tz`: a lookup of the name in the zone
/// database compiled into the crate.
#[verifier::external_body]
pub(crate) fn zone_is_known(name: &str) -> (r: bool)
    ensures
        r == is_known_zone(name@),
{
    name.parse::<chrono_tz::Tz>().is_ok()
}

/// Relies on chrono's `DateTime::parse_from_rfc3339` and `DateTime::timestamp`.
#[verifier::external_body]
pub(crate) fn parse_rfc3339(text: &str) -> (r: Option<i64>)
    ensures
        match r {
            Some(v) => rfc3339_instant(text@) == Some(v as int),
            None => rfc3339_instant(text@) is None,
        },
{
    match chrono::DateTime::parse_from_rfc3339(text) {
        Ok(t) => Some(t.timestamp()),
        Err(_) => None,
    }
}

/// Relies on chrono_tz's `FromStr for Tz` and on chrono's
/// `DateTime::from_timestamp`, `with_timezone` and `format`.
#[verifier::external_body]
pub(crate) fn local_time(zone: &str, secs: i64) -> (r: Option<String>)
    ensures
        match r {
            Some(t) => local_time_text(zone@, secs as int) == Some(t@),
            None => local_time_text(zone@, secs as int) is None,
        },
{
    let tz = zone.parse::<chrono_tz::Tz>().ok()?;
    let utc = chrono::DateTime::from_timestamp(secs, 0)?;
    Some(utc.with_timezone(&tz).format("%Y-%m-%d %H:%M:%S").to_string())
}

} // verus!
