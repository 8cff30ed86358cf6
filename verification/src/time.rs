//! Instants taken from the system clock and read from stored date texts.

use vstd::prelude::*;
use crate::model::Timestamp;
use crate::error::StoreFailure;

verus! {

/// The two parts of the instant that `chrono` reads from a text in the
/// RFC 3339 form, or `None` where it rejects the text.
pub uninterp spec fn rfc3339_instant(text: Seq<char>) -> Option<(i64, u32)>;

/// The two parts of the instant that `chrono` reads from a text without a
/// time zone under a `strftime` pattern, taken as universal time, or `None`
/// where it rejects the text.
pub uninterp spec fn patterned_instant(text: Seq<char>, pattern: Seq<char>) -> Option<(i64, u32)>;

/// The seconds and nanoseconds of an optional instant.
pub open spec fn parts(t: Option<Timestamp>) -> Option<(i64, u32)> {
    match t {
        Some(t) => Some((t.secs, t.nanos)),
        None => None,
    }
}

/// Calls `chrono::Utc::now`. The clock decides the result, so nothing is
/// claimed of it.
#[verifier::external_body]
pub(crate) fn now() -> Timestamp {
    let t = chrono::Utc::now();
    Timestamp { secs: t.timestamp(), nanos: t.timestamp_subsec_nanos() }
}

/// Calls `chrono::DateTime::parse_from_rfc3339` and moves the instant to
/// universal time; the contract only gives the result its name.
#[verifier::external_body]
pub(crate) fn read_rfc3339(text: &str) -> (r: Option<Timestamp>)
    ensures
        parts(r) == rfc3339_instant(text@),
{
    match chrono::DateTime::parse_from_rfc3339(text) {
        Ok(t) => Some(Timestamp { secs: t.timestamp(), nanos: t.timestamp_subsec_nanos() }),
        Err(_) => None,
    }
}

/// Calls `chrono::NaiveDateTime::parse_from_str` and takes the result as
/// universal time; the contract only gives the result its name.
#[verifier::external_body]
pub(crate) fn read_patterned(text: &str, pattern: &str) -> (r: Option<Timestamp>)
    ensures
        parts(r) == patterned_instant(text@, pattern@),
{
    match chrono::NaiveDateTime::parse_from_str(text, pattern) {
        Ok(t) => Some(Timestamp { secs: t.and_utc().timestamp(), nanos: t.and_utc().timestamp_subsec_nanos() }),
        Err(_) => None,
    }
}

/// The pattern of a local date text with a fraction of a second.
pub open spec fn fractional_pattern() -> Seq<char> {
    "%Y-%m-%d %H:%M:%S%.f"@
}

/// The pattern of a local date text with whole seconds.
pub open spec fn whole_pattern() -> Seq<char> {
    "%Y-%m-%d %H:%M:%S"@
}

/// The first of three readings that succeeded, in the order given.
pub open spec fn first_reading(
    zoned: Option<(i64, u32)>,
    fractional: Option<(i64, u32)>,
    whole: Option<(i64, u32)>,
) -> Option<(i64, u32)> {
    if zoned is Some {
        zoned
    } else if fractional is Some {
        fractional
    } else {
        whole
    }
}

/// The instant a stored date text stands for: read with its time zone first,
/// then as a local text with a fraction of a second, then with whole seconds.
pub open spec fn stored_instant(text: Seq<char>) -> Option<(i64, u32)> {
    first_reading(
        rfc3339_instant(text),
        patterned_instant(text, fractional_pattern()),
        patterned_instant(text, whole_pattern()),
    )
}

/// Picks the first reading that succeeded, or fails as an absent row where
/// none did.
pub fn choose_reading(
    zoned: Option<Timestamp>,
    fractional: Option<Timestamp>,
    whole: Option<Timestamp>,
) -> (r: Result<Timestamp, StoreFailure>)
    ensures
        match first_reading(parts(zoned), parts(fractional), parts(whole)) {
            Some(p) => r is Ok && parts(Some(r->Ok_0)) == Some(p),
            None => r == Err::<Timestamp, StoreFailure>(StoreFailure::RowNotFound),
        },
{
    match zoned {
        Some(t) => Ok(t),
        None => match fractional {
            Some(t) => Ok(t),
            None => match whole {
                Some(t) => Ok(t),
                None => Err(StoreFailure::RowNotFound),
            },
        },
    }
}

/// Reads a stored date text. A text that none of the three forms accepts is
/// an error; no date is ever made up.
pub fn parse_datetime(text: &str) -> (r: Result<Timestamp, StoreFailure>)
    ensures
        match stored_instant(text@) {
            Some(p) => r is Ok && parts(Some(r->Ok_0)) == Some(p),
            None => r == Err::<Timestamp, StoreFailure>(StoreFailure::RowNotFound),
        },
{
    let zoned = read_rfc3339(text);
    if zoned.is_some() {
        return choose_reading(zoned, None, None);
    }
    let fractional = read_patterned(text, "%Y-%m-%d %H:%M:%S%.f");
    if fractional.is_some() {
        return choose_reading(zoned, fractional, None);
    }
    let whole = read_patterned(text, "%Y-%m-%d %H:%M:%S");
    choose_reading(zoned, fractional, whole)
}

} // verus!
