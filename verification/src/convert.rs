//! Readings of stored text back into domain values: a stored value that does
//! not read is a failure of the store, not of a domain rule.
use crate::calendar::{time_accepts_julian_day, time_accepts_unix_nanos, Date, Timestamp};
use crate::error::{domain_message, AppError, DomainError};
use crate::ids::{parse_uuid, uuid_parse};
use crate::title::{title_outcome, Title};
use vstd::prelude::*;

verus! {

/// Reads a stored title; a blank one is a persistence error with the domain's
/// message.
pub fn title(raw: &str) -> (r: Result<Title, AppError>)
    ensures
        r is Ok <==> title_outcome(raw@) is Some,
        r matches Ok(t) ==> title_outcome(raw@) == Some(t@),
        r matches Err(e) ==> e matches AppError::Persistence { message } && message@
            == domain_message(DomainError::EmptyTitle),
{
    match Title::parse(raw) {
        Ok(t) => Ok(t),
        Err(e) => Err(AppError::persistence(e.to_string().as_str())),
    }
}

/// Reads a stored identifier; text that is not a UUID is a persistence error.
pub fn parse(raw: &str) -> (r: Result<u128, AppError>)
    ensures
        r is Ok <==> uuid_parse(raw@) is Some,
        r matches Ok(v) ==> uuid_parse(raw@) == Some(v),
        r matches Err(e) ==> e is Persistence,
{
    match parse_uuid(raw) {
        Ok(v) => Ok(v),
        Err(message) => Err(AppError::persistence(message.as_str())),
    }
}

/// The Julian day of the date that `time::Date::parse` reads from `text` with
/// the description `[year]-[month]-[day]`, or `None` where it fails.
pub uninterp spec fn iso_date_julian_day(text: Seq<char>) -> Option<int>;

/// The instant, in nanoseconds since the Unix epoch, that
/// `time::OffsetDateTime::parse` reads from `text` as RFC 3339, or `None` where
/// it fails.
pub uninterp spec fn rfc3339_nanos(text: Seq<char>) -> Option<int>;

/// The text that `time::Date::format` writes for the date with Julian day `day`
/// with the description `[year]-[month]-[day]`, or `None` where it fails.
pub uninterp spec fn iso_date_text(day: int) -> Option<Seq<char>>;

/// The text that `time::OffsetDateTime::format` writes as RFC 3339 for the UTC
/// instant `nanos` nanoseconds after the Unix epoch, or `None` where it fails.
pub uninterp spec fn rfc3339_text(nanos: int) -> Option<Seq<char>>;

/// Calls `time::format_description::parse` for `[year]-[month]-[day]`, then
/// `time::Date::parse` and `to_julian_day`; an error is turned into its
/// message. A `time::Date` always lies in the range that `time` accepts.
#[verifier::external_body]
fn parse_iso_date(raw: &str) -> (r: Result<i32, String>)
    ensures
        r is Ok <==> iso_date_julian_day(raw@) is Some,
        r matches Ok(d) ==> iso_date_julian_day(raw@) == Some(d as int) && time_accepts_julian_day(
            d as int,
        ),
{
    match time::format_description::parse("[year]-[month]-[day]") {
        Ok(items) => match time::Date::parse(raw, &items) {
            Ok(date) => Ok(date.to_julian_day()),
            Err(e) => Err(e.to_string()),
        },
        Err(e) => Err(e.to_string()),
    }
}

/// Calls `time::OffsetDateTime::parse` with `Rfc3339` and then
/// `unix_timestamp_nanos`; an error is turned into its message.
#[verifier::external_body]
fn parse_rfc3339(raw: &str) -> (r: Result<i128, String>)
    ensures
        r is Ok <==> rfc3339_nanos(raw@) is Some,
        r matches Ok(n) ==> rfc3339_nanos(raw@) == Some(n as int),
{
    match time::OffsetDateTime::parse(raw, &time::format_description::well_known::Rfc3339) {
        Ok(at) => Ok(at.unix_timestamp_nanos()),
        Err(e) => Err(e.to_string()),
    }
}

/// Calls `time::Date::from_julian_day` (which accepts `day`), then
/// `time::format_description::parse` for `[year]-[month]-[day]` and
/// `time::Date::format`; an error is turned into its message.
#[verifier::external_body]
fn format_iso_date(day: i32) -> (r: Result<String, String>)
    requires
        time_accepts_julian_day(day as int),
    ensures
        r is Ok <==> iso_date_text(day as int) is Some,
        r matches Ok(s) ==> iso_date_text(day as int) == Some(s@),
{
    let date = time::Date::from_julian_day(day).unwrap();
    match time::format_description::parse("[year]-[month]-[day]") {
        Ok(items) => match date.format(&items) {
            Ok(s) => Ok(s),
            Err(e) => Err(e.to_string()),
        },
        Err(e) => Err(e.to_string()),
    }
}

/// Calls `time::OffsetDateTime::from_unix_timestamp_nanos` (which accepts
/// `nanos`) and `format` with `Rfc3339`; an error is turned into its message.
#[verifier::external_body]
fn format_rfc3339_nanos(nanos: i128) -> (r: Result<String, String>)
    requires
        time_accepts_unix_nanos(nanos as int),
    ensures
        r is Ok <==> rfc3339_text(nanos as int) is Some,
        r matches Ok(s) ==> rfc3339_text(nanos as int) == Some(s@),
{
    let at = time::OffsetDateTime::from_unix_timestamp_nanos(nanos).unwrap();
    match at.format(&time::format_description::well_known::Rfc3339) {
        Ok(s) => Ok(s),
        Err(e) => Err(e.to_string()),
    }
}

/// Reads a stored value that a domain rule parses; a refusal is a
/// persistence error with the domain's message.
pub fn stored<T>(parsed: Result<T, DomainError>) -> (r: Result<T, AppError>)
    ensures
        match parsed {
            Ok(v) => r == Ok::<T, AppError>(v),
            Err(e) => r matches Err(AppError::Persistence { message }) && message@
                == domain_message(e),
        },
{
    match parsed {
        Ok(v) => Ok(v),
        Err(e) => Err(AppError::persistence(e.to_string().as_str())),
    }
}

/// Reads a stored date written as `[year]-[month]-[day]`; text that does not
/// read is a persistence error.
pub fn date(raw: &str) -> (r: Result<Date, AppError>)
    ensures
        r is Ok <==> iso_date_julian_day(raw@) is Some,
        r matches Ok(d) ==> iso_date_julian_day(raw@) == Some(d@),
        r matches Err(e) ==> e is Persistence,
{
    match parse_iso_date(raw) {
        Ok(day) => match Date::from_julian_day(day) {
            Some(d) => Ok(d),
            None => Err(AppError::persistence("date out of range")),
        },
        Err(message) => Err(AppError::persistence(message.as_str())),
    }
}

/// Reads an optional stored date.
pub fn optional_date(raw: &Option<String>) -> (r: Result<Option<Date>, AppError>)
    ensures
        match raw {
            None => r == Ok::<Option<Date>, AppError>(None),
            Some(t) => (r is Ok <==> iso_date_julian_day(t@) is Some) && (r matches Ok(d) ==> d
                matches Some(x) && iso_date_julian_day(t@) == Some(x@)) && (r matches Err(e)
                ==> e is Persistence),
        },
{
    match raw {
        None => Ok(None),
        Some(t) => match date(t.as_str()) {
            Ok(d) => Ok(Some(d)),
            Err(e) => Err(e),
        },
    }
}

/// Reads a stored RFC 3339 instant; text that does not read, or an instant
/// out of the range that `time` accepts, is a persistence error.
pub fn rfc3339(raw: &str) -> (r: Result<Timestamp, AppError>)
    ensures
        r is Ok <==> (rfc3339_nanos(raw@) matches Some(n) && time_accepts_unix_nanos(n)),
        r matches Ok(t) ==> rfc3339_nanos(raw@) == Some(t@),
        r matches Err(e) ==> e is Persistence,
{
    match parse_rfc3339(raw) {
        Ok(n) => match Timestamp::from_unix_nanos(n) {
            Some(t) => Ok(t),
            None => Err(AppError::persistence("instant out of range")),
        },
        Err(message) => Err(AppError::persistence(message.as_str())),
    }
}

/// Reads an optional stored RFC 3339 instant.
pub fn optional_rfc3339(raw: &Option<String>) -> (r: Result<Option<Timestamp>, AppError>)
    ensures
        match raw {
            None => r == Ok::<Option<Timestamp>, AppError>(None),
            Some(t) => (r is Ok <==> (rfc3339_nanos(t@) matches Some(n) && time_accepts_unix_nanos(
                n,
            ))) && (r matches Ok(x) ==> x matches Some(v) && rfc3339_nanos(t@) == Some(v@)) && (
            r matches Err(e) ==> e is Persistence),
        },
{
    match raw {
        None => Ok(None),
        Some(t) => match rfc3339(t.as_str()) {
            Ok(v) => Ok(Some(v)),
            Err(e) => Err(e),
        },
    }
}

/// The stored text of a date, `[year]-[month]-[day]`; a date `time` cannot
/// write is a persistence error.
pub fn date_text(d: Date) -> (r: Result<String, AppError>)
    ensures
        r is Ok <==> iso_date_text(d@) is Some,
        r matches Ok(s) ==> iso_date_text(d@) == Some(s@),
        r matches Err(e) ==> e is Persistence,
{
    match format_iso_date(d.julian_day()) {
        Ok(s) => Ok(s),
        Err(message) => Err(AppError::persistence(message.as_str())),
    }
}

/// The stored RFC 3339 text of an instant, in UTC; an instant `time` cannot
/// write that way is a persistence error.
pub fn format_rfc3339(t: Timestamp) -> (r: Result<String, AppError>)
    ensures
        r is Ok <==> rfc3339_text(t@) is Some,
        r matches Ok(s) ==> rfc3339_text(t@) == Some(s@),
        r matches Err(e) ==> e is Persistence,
{
    match format_rfc3339_nanos(t.unix_nanos()) {
        Ok(s) => Ok(s),
        Err(message) => Err(AppError::persistence(message.as_str())),
    }
}

} // verus!
