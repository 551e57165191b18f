//! UTC date-times stored as values.
//!
//! A date-time is held as the instant `chrono` gives for it: whole seconds since
//! the Unix epoch and the nanoseconds past them. Only instants that
//! `chrono::DateTime::<Utc>` can represent are built.
use vstd::prelude::*;
use chrono::{DateTime, Utc};
use crate::error::Error;
use crate::text::owned;
use super::value::{Value, ValueView};

verus! {

/// Whether `chrono::DateTime::<Utc>::from_timestamp(secs, nanos)` gives a
/// date-time: its day lies between -262143-01-01 and +262142-12-31, the years
/// `chrono` represents, and the nanoseconds make less than one second, or less
/// than two on the last second of a minute (a leap second).
pub open spec fn chrono_timestamp_valid(secs: i64, nanos: u32) -> bool {
    &&& -8334601228800 <= secs <= 8210266876799
    &&& nanos < 2_000_000_000
    &&& (nanos < 1_000_000_000 || secs % 60 == 59)
}

/// The RFC 3339 text that `to_rfc3339` writes for the UTC date-time at an instant.
pub uninterp spec fn rfc3339_text(secs: i64, nanos: u32) -> Seq<char>;

/// The instant of the date-time that `chrono::DateTime::parse_from_rfc3339` reads
/// from a text, when it accepts it.
pub uninterp spec fn rfc3339_instant(s: Seq<char>) -> Option<(i64, u32)>;

/// `chrono::DateTime::<Utc>::from_timestamp(secs, nanos).is_some()`.
#[verifier::external_body]
fn timestamp_valid(secs: i64, nanos: u32) -> (res: bool)
    ensures
        res == chrono_timestamp_valid(secs, nanos),
{
    DateTime::<Utc>::from_timestamp(secs, nanos).is_some()
}

/// Whether an instant falls in the years 0000 to 9999, the years that RFC 3339
/// text writes with four digits.
pub open spec fn four_digit_year(secs: i64) -> bool {
    -62167219200 <= secs <= 253402300799
}

/// `to_rfc3339` of the UTC date-time `chrono::DateTime::from_timestamp(secs, nanos)`.
/// For a date-time in the years 0000 to 9999 (written with four digits),
/// `chrono::DateTime::parse_from_rfc3339` reads the text back as the same instant.
#[verifier::external_body]
fn format_rfc3339(secs: i64, nanos: u32) -> (res: String)
    requires
        chrono_timestamp_valid(secs, nanos),
    ensures
        res@ == rfc3339_text(secs, nanos),
        four_digit_year(secs) ==> rfc3339_instant(res@) == Some((secs, nanos)),
{
    DateTime::<Utc>::from_timestamp(secs, nanos).unwrap().to_rfc3339()
}

/// `chrono::DateTime::parse_from_rfc3339(s)`, as the instant of the date-time
/// (`timestamp` and `timestamp_subsec_nanos` of it in UTC); `None` where the crate
/// returns an error. A parsed date-time is one that `from_timestamp` rebuilds.
#[verifier::external_body]
fn parse_rfc3339(s: &str) -> (res: Option<(i64, u32)>)
    ensures
        res == rfc3339_instant(s@),
        res matches Some((secs, nanos)) ==> chrono_timestamp_valid(secs, nanos),
{
    match DateTime::parse_from_rfc3339(s) {
        Ok(d) => {
            let u = d.with_timezone(&Utc);
            Some((u.timestamp(), u.timestamp_subsec_nanos()))
        },
        Err(_) => None,
    }
}

/// `chrono::DateTime::from_timestamp_nanos(n)`, as its instant: the seconds and
/// nanoseconds of `n` nanoseconds since the epoch (Euclidean division), which every
/// `i64` gives.
#[verifier::external_body]
fn from_timestamp_nanos(n: i64) -> (res: (i64, u32))
    ensures
        res.0 == n / 1_000_000_000,
        res.1 == n % 1_000_000_000,
        chrono_timestamp_valid(res.0, res.1),
{
    let d = DateTime::from_timestamp_nanos(n);
    (d.timestamp(), d.timestamp_subsec_nanos())
}

/// A UTC date-time, as its instant.
#[derive(Debug, Clone, Copy, PartialEq, Eq, Structural)]
pub struct UtcDateTime {
    secs: i64,
    nanos: u32,
}

impl View for UtcDateTime {
    type V = (i64, u32);

    closed spec fn view(&self) -> (i64, u32) {
        (self.secs, self.nanos)
    }
}

impl UtcDateTime {
    #[verifier::type_invariant]
    spec fn representable(self) -> bool {
        chrono_timestamp_valid(self.secs, self.nanos)
    }

    /// The date-time at `secs` seconds and `nanos` nanoseconds past the Unix
    /// epoch, when `chrono` can represent it.
    pub fn from_timestamp(secs: i64, nanos: u32) -> (res: Option<UtcDateTime>)
        ensures
            res is Some <==> chrono_timestamp_valid(secs, nanos),
            res matches Some(d) ==> d@ == (secs, nanos),
    {
        if timestamp_valid(secs, nanos) {
            Some(UtcDateTime { secs, nanos })
        } else {
            None
        }
    }

    /// Seconds since the Unix epoch.
    pub fn timestamp(&self) -> (res: i64)
        ensures
            res == self@.0,
    {
        self.secs
    }

    /// Nanoseconds past the second.
    pub fn timestamp_subsec_nanos(&self) -> (res: u32)
        ensures
            res == self@.1,
    {
        self.nanos
    }

    /// The date-time as RFC 3339 text; in the years 0000 to 9999 it reads back as
    /// the same date-time.
    pub fn to_rfc3339(&self) -> (res: String)
        ensures
            res@ == rfc3339_text(self@.0, self@.1),
            four_digit_year(self@.0) ==> rfc3339_instant(res@) == Some(self@),
    {
        proof { use_type_invariant(self); }
        format_rfc3339(self.secs, self.nanos)
    }

    /// The date-time as a timestamp value: its seconds since the epoch, taken as
    /// an unsigned number.
    pub fn to_value(&self) -> (res: Value)
        ensures
            res@ == ValueView::Datetime(self@.0 as u64),
    {
        Value::Datetime(self.secs as u64)
    }
}

/// The value of a date-time: its RFC 3339 text. In the years 0000 to 9999 the
/// value reads back as the same date-time.
pub fn datetime_to_value(dt: &UtcDateTime) -> (res: Value)
    ensures
        res@ == ValueView::Text(rfc3339_text(dt@.0, dt@.1)),
        four_digit_year(dt@.0) ==> rfc3339_instant(rfc3339_text(dt@.0, dt@.1)) == Some(dt@),
{
    Value::Text(dt.to_rfc3339())
}

/// The error of a text that is no RFC 3339 date-time.
pub open spec fn is_format_error(e: Error) -> bool {
    e matches Error::TryFromValueError { field } && field@ == "Invalid DateTime format"@
}

/// The error of a value that holds no date-time.
pub open spec fn is_not_datetime_error(e: Error) -> bool {
    e matches Error::TryFromValueError { field } && field@ == "Value is not a DateTime"@
}

/// The date-time of a value: RFC 3339 text, or an integer of nanoseconds since the
/// Unix epoch; an error for any other value or text.
pub fn datetime_from_value(value: Value) -> (res: Result<UtcDateTime, Error>)
    ensures
        match value@ {
            ValueView::Text(s) => match rfc3339_instant(s) {
                Some(p) => (res matches Ok(d) && d@ == p),
                None => (res matches Err(e) && is_format_error(e)),
            },
            ValueView::Integer(n) => (res matches Ok(d) && d@ == (
                (n / 1_000_000_000) as i64,
                (n % 1_000_000_000) as u32,
            )),
            _ => (res matches Err(e) && is_not_datetime_error(e)),
        },
{
    match value {
        Value::Text(s) => match parse_rfc3339(s.as_str()) {
            Some((secs, nanos)) => Ok(UtcDateTime { secs, nanos }),
            None => Err(Error::TryFromValueError { field: owned("Invalid DateTime format") }),
        },
        Value::Integer(n) => {
            let (secs, nanos) = from_timestamp_nanos(n);
            Ok(UtcDateTime { secs, nanos })
        },
        _ => Err(Error::TryFromValueError { field: owned("Value is not a DateTime") }),
    }
}

} // verus!
