//! Instants in time, and their ISO-8601 text as `chrono` reads and writes it.

use vstd::prelude::*;
use chrono::{DateTime, Utc};
use std::time::SystemTime;
use crate::error::Error;

verus! {

/// An instant on the UTC time line, counted in nanoseconds from the Unix epoch.
/// Every value is a valid instant; the range runs from 1677-09-21 to 2262-04-11.
#[derive(Clone, Copy, Debug, PartialEq, Eq, Structural)]
pub struct Timestamp {
    pub nanos: i64,
}

/// The text that `chrono` writes for the instant `nanos` nanoseconds after the
/// epoch: the `Debug` form of a `DateTime<Utc>`, such as `2021-03-01T12:30:00Z`.
pub uninterp spec fn instant_text(nanos: i64) -> Seq<char>;

/// The instant that `chrono` reads from `text` as a `DateTime<Utc>`, in
/// nanoseconds after the epoch; `None` where the text is not a date and time in
/// the relaxed RFC 3339 form, or names an instant outside the range of `Timestamp`.
pub uninterp spec fn text_instant(text: Seq<char>) -> Option<i64>;

/// Calls `DateTime::<Utc>::from_timestamp_nanos`, which accepts every `i64`, and
/// formats the result with `{:?}`. The contract names the text and claims one
/// fact of it: parsing that text as a `DateTime<Utc>` gives the same instant back
/// (the text is an RFC 3339 date and time with a four-digit year and a `Z`).
#[verifier::external_body]
fn chrono_format(nanos: i64) -> (text: String)
    ensures
        text@ == instant_text(nanos),
        text_instant(text@) == Some(nanos),
{
    format!("{:?}", DateTime::<Utc>::from_timestamp_nanos(nanos))
}

/// Calls `str::parse::<DateTime<Utc>>` and, on success,
/// `DateTime::timestamp_nanos_opt`. The contract names the outcome.
#[verifier::external_body]
fn chrono_parse(text: &str) -> (nanos: Option<i64>)
    ensures
        nanos == text_instant(text@),
{
    match text.parse::<DateTime<Utc>>() {
        Ok(instant) => instant.timestamp_nanos_opt(),
        Err(_) => None,
    }
}

/// Calls `SystemTime::now` and converts the reading with the `From<SystemTime>`
/// of `DateTime<Utc>`, then takes it apart with `DateTime::timestamp` and
/// `DateTime::timestamp_subsec_nanos`: whole seconds from the epoch, and the
/// nanoseconds past the second. Nothing is promised of the reading.
#[verifier::external_body]
fn chrono_now() -> (parts: (i64, u32))
{
    let now = DateTime::<Utc>::from(SystemTime::now());
    (now.timestamp(), now.timestamp_subsec_nanos())
}

/// The instant nearest to a count of nanoseconds that may lie beyond the range
/// of `Timestamp`.
pub open spec fn saturated(nanos: int) -> i64 {
    if nanos < i64::MIN {
        i64::MIN
    } else if nanos > i64::MAX {
        i64::MAX
    } else {
        nanos as i64
    }
}

impl Timestamp {
    /// The Unix epoch. It stands in for the clock in a back test, which dates
    /// by its candles and never reads the clock.
    pub open spec fn epoch() -> Timestamp {
        Timestamp { nanos: 0 }
    }

    /// The ISO-8601 text of the instant.
    pub open spec fn text(self) -> Seq<char> {
        instant_text(self.nanos)
    }

    /// The instant that a text denotes, if it denotes one.
    pub open spec fn from_text(text: Seq<char>) -> Option<Timestamp> {
        match text_instant(text) {
            Some(nanos) => Some(Timestamp { nanos }),
            None => None,
        }
    }

    /// Reads an instant from its ISO-8601 text.
    pub fn parse(text: &str) -> (r: Result<Timestamp, Error>)
        ensures
            r == match Timestamp::from_text(text@) {
                Some(t) => Ok::<Timestamp, Error>(t),
                None => Err(Error::InvalidTimestamp),
            },
    {
        match chrono_parse(text) {
            Some(nanos) => Ok(Timestamp { nanos }),
            None => Err(Error::InvalidTimestamp),
        }
    }

    /// Writes the instant as ISO-8601 text. Reading the text back gives the
    /// same instant.
    pub fn format(&self) -> (text: String)
        ensures
            text@ == self.text(),
            Timestamp::from_text(text@) == Some(*self),
    {
        chrono_format(self.nanos)
    }

    /// The instant that lies `subsec_nanos` nanoseconds after the whole second
    /// `secs` of the epoch, or the nearest instant that fits.
    pub fn from_parts(secs: i64, subsec_nanos: u32) -> (t: Timestamp)
        ensures
            t.nanos == saturated(secs * 1_000_000_000 + subsec_nanos),
    {
        let wide: i128 = (secs as i128) * 1_000_000_000 + (subsec_nanos as i128);
        if wide < i64::MIN as i128 {
            Timestamp { nanos: i64::MIN }
        } else if wide > i64::MAX as i128 {
            Timestamp { nanos: i64::MAX }
        } else {
            Timestamp { nanos: wide as i64 }
        }
    }

    /// Reads the wall clock. A reading beyond the range is reported as the
    /// nearest instant that fits.
    pub fn now() -> (t: Timestamp)
    {
        let (secs, subsec_nanos) = chrono_now();
        Timestamp::from_parts(secs, subsec_nanos)
    }
}

} // verus!
