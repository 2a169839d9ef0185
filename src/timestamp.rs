//! Instants in UTC, held as whole seconds and nanoseconds since the Unix
//! epoch. chrono reads the clock and writes the RFC 3339 text.

use chrono::{DateTime, Utc};
use std::time::SystemTime;
use vstd::prelude::*;

verus! {

/// Whether chrono can hold the instant `secs` seconds and `nanos`
/// nanoseconds after the Unix epoch as a `DateTime<Utc>`.
pub uninterp spec fn chrono_representable(secs: i64, nanos: u32) -> bool;

/// The RFC 3339 text that chrono writes for that instant.
pub uninterp spec fn rfc3339_text(secs: i64, nanos: u32) -> Seq<char>;

/// The instant, as seconds and nanoseconds since the epoch, that chrono
/// reads from RFC 3339 text, if the text is valid.
pub uninterp spec fn rfc3339_instant(s: Seq<char>) -> Option<(i64, u32)>;

/// Relies on chrono's `DateTime::parse_from_rfc3339`, read back in UTC
/// through `DateTime::timestamp` and `DateTime::timestamp_subsec_nanos`.
#[verifier::external_body]
pub(crate) fn parse_rfc3339(s: &str) -> (r: Option<(i64, u32)>)
    ensures
        r == rfc3339_instant(s@),
{
    match DateTime::parse_from_rfc3339(s) {
        Ok(d) => {
            let u = d.with_timezone(&Utc);
            Some((u.timestamp(), u.timestamp_subsec_nanos()))
        },
        Err(_) => None,
    }
}

/// Relies on chrono's `DateTime::from_timestamp`: whether it returns `Some`
/// for these parts.
#[verifier::external_body]
fn representable(secs: i64, nanos: u32) -> (r: bool)
    ensures
        r == chrono_representable(secs, nanos),
{
    DateTime::from_timestamp(secs, nanos).is_some()
}

/// Relies on chrono's `DateTime::to_rfc3339`, applied to the instant that
/// `DateTime::from_timestamp` builds from these parts.
#[verifier::external_body]
fn format_rfc3339(secs: i64, nanos: u32) -> (r: String)
    requires
        chrono_representable(secs, nanos),
    ensures
        r@ == rfc3339_text(secs, nanos),
{
    match DateTime::from_timestamp(secs, nanos) {
        Some(d) => d.to_rfc3339(),
        None => String::new(),
    }
}

/// Relies on std's `SystemTime::now`, turned into a `DateTime<Utc>` by
/// chrono's `From<SystemTime>` and read back through `DateTime::timestamp`
/// and `DateTime::timestamp_subsec_nanos`. That conversion builds its result
/// with `Utc.timestamp_opt` from whole seconds and a sub-second part below
/// one second, before or after the epoch, and unwraps it; the two accessors
/// give the same parts back.
#[verifier::external_body]
fn clock_now() -> (r: (i64, u32))
    ensures
        chrono_representable(r.0, r.1),
        r.1 < 1_000_000_000,
{
    let d: DateTime<Utc> = SystemTime::now().into();
    (d.timestamp(), d.timestamp_subsec_nanos())
}

/// An instant that chrono can represent.
#[derive(Clone, Copy, Debug, PartialEq, Eq)]
pub struct Timestamp {
    secs: i64,
    nanos: u32,
}

/// `a` is not later than `b`.
pub open spec fn not_after(a: (i64, u32), b: (i64, u32)) -> bool {
    a.0 < b.0 || (a.0 == b.0 && a.1 <= b.1)
}

impl View for Timestamp {
    type V = (i64, u32);

    closed spec fn view(&self) -> (i64, u32) {
        (self.secs, self.nanos)
    }
}

impl Timestamp {
    #[verifier::type_invariant]
    spec fn inv(self) -> bool {
        chrono_representable(self.secs, self.nanos)
    }

    /// The instant `secs` seconds and `nanos` nanoseconds after the epoch,
    /// where chrono can hold it.
    pub fn from_parts(secs: i64, nanos: u32) -> (r: Option<Timestamp>)
        ensures
            r is Some <==> chrono_representable(secs, nanos),
            r matches Some(t) ==> t@ == (secs, nanos),
    {
        if representable(secs, nanos) {
            Some(Timestamp { secs, nanos })
        } else {
            None
        }
    }

    /// The current time.
    pub fn now() -> (r: Timestamp)
        ensures
            r@.1 < 1_000_000_000,
    {
        let (secs, nanos) = clock_now();
        Timestamp { secs, nanos }
    }

    pub fn secs(&self) -> (r: i64)
        ensures
            r == self@.0,
    {
        self.secs
    }

    pub fn nanos(&self) -> (r: u32)
        ensures
            r == self@.1,
    {
        self.nanos
    }

    /// The instant as RFC 3339 text, as chrono writes it.
    pub fn to_rfc3339(&self) -> (r: String)
        ensures
            r@ == rfc3339_text(self@.0, self@.1),
    {
        proof {
            use_type_invariant(self);
        }
        format_rfc3339(self.secs, self.nanos)
    }
}

} // verus!
