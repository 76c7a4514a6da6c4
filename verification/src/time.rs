//! Calendar arithmetic taken from chrono.
use vstd::prelude::*;
use chrono::{DateTime, NaiveDateTime, TimeDelta, Utc};

verus! {

/// chrono's date and time without a time zone; the library only carries it.
#[verifier::external_type_specification]
#[verifier::external_body]
pub struct ExNaiveDateTime(NaiveDateTime);

/// `TimeDelta::days(days).num_seconds()`: chrono builds the delta from
/// `days * 86400` seconds and panics when that lies outside its range of
/// `±i64::MAX` milliseconds, whose whole seconds are `±9_223_372_036_854_775`.
#[verifier::external_body]
pub(crate) fn days_in_seconds(days: i64) -> (secs: i64)
    requires
        -9_223_372_036_854_775 <= days * 86400 <= 9_223_372_036_854_775,
    ensures
        secs == days * 86400,
{
    TimeDelta::days(days).num_seconds()
}

/// The calendar date (`%Y-%m-%d`) of a UNIX timestamp in UTC, when chrono can
/// represent that instant.
pub uninterp spec fn ymd_of_timestamp(secs: int) -> Option<Seq<char>>;

/// The RFC 3339 form of a UNIX timestamp in UTC, when chrono can represent that instant.
pub uninterp spec fn rfc3339_of_timestamp(secs: int) -> Option<Seq<char>>;

/// `DateTime::<Utc>::from_timestamp(secs, 0)` formatted with `%Y-%m-%d`. chrono
/// returns no date only when the day count leaves its calendar, which no
/// timestamp that fits an `i32` does.
#[verifier::external_body]
pub(crate) fn timestamp_ymd(secs: i64) -> (r: Option<String>)
    ensures
        match r {
            Some(s) => ymd_of_timestamp(secs as int) == Some(s@),
            None => ymd_of_timestamp(secs as int) is None,
        },
        i32::MIN <= secs <= i32::MAX ==> r is Some,
{
    match DateTime::<Utc>::from_timestamp(secs, 0) {
        Some(d) => Some(d.format("%Y-%m-%d").to_string()),
        None => None,
    }
}

/// `DateTime::<Utc>::from_timestamp(secs, 0)` written with `to_rfc3339`, on the
/// same range as `timestamp_ymd`.
#[verifier::external_body]
pub(crate) fn timestamp_rfc3339(secs: i64) -> (r: Option<String>)
    ensures
        match r {
            Some(s) => rfc3339_of_timestamp(secs as int) == Some(s@),
            None => rfc3339_of_timestamp(secs as int) is None,
        },
        i32::MIN <= secs <= i32::MAX ==> r is Some,
{
    match DateTime::<Utc>::from_timestamp(secs, 0) {
        Some(d) => Some(d.to_rfc3339()),
        None => None,
    }
}

} // verus!
