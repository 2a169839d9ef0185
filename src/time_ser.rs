//! A timestamp as a JSON value: its RFC 3339 text as a string literal.

use crate::json::{json_string, push_json_string};
use crate::timestamp::{chrono_representable, parse_rfc3339, rfc3339_instant, rfc3339_text, Timestamp};
use vstd::prelude::*;

verus! {

/// The JSON value for `t`.
pub open spec fn time_json(t: Timestamp) -> Seq<char> {
    json_string(rfc3339_text(t@.0, t@.1))
}

/// Writes `date` as a JSON string holding its RFC 3339 text.
pub fn serialize(date: &Timestamp) -> (r: String)
    ensures
        r@ == time_json(*date),
{
    let text = date.to_rfc3339();
    let mut out = String::new();
    push_json_string(&mut out, text.as_str());
    out
}

/// Reads a timestamp from RFC 3339 text, such as a JSON string holds once
/// unescaped; `None` where the text is not valid RFC 3339 or names an
/// instant that chrono cannot hold.
pub fn deserialize(s: &str) -> (r: Option<Timestamp>)
    ensures
        r is Some <==> (rfc3339_instant(s@) matches Some(p) && chrono_representable(p.0, p.1)),
        r matches Some(t) ==> rfc3339_instant(s@) == Some(t@),
{
    match parse_rfc3339(s) {
        Some((secs, nanos)) => Timestamp::from_parts(secs, nanos),
        None => None,
    }
}

} // verus!
