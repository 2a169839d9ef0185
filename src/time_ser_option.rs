//! An optional timestamp as a JSON value: `null` when absent.
//!
//! There is deliberately no reader here: `updated_at` is set only by the
//! store, on edit and toggle, and is never read from a request.

use crate::time_ser::time_json;
use crate::timestamp::Timestamp;
use vstd::prelude::*;

verus! {

/// The JSON value for an optional timestamp.
pub open spec fn opt_time_json(t: Option<Timestamp>) -> Seq<char> {
    match t {
        Some(t) => time_json(t),
        None => seq!['n', 'u', 'l', 'l'],
    }
}

/// Writes `date` as JSON: `null`, or a string holding its RFC 3339 text.
pub fn serialize(date: &Option<Timestamp>) -> (r: String)
    ensures
        r@ == opt_time_json(*date),
{
    match date {
        Some(d) => crate::time_ser::serialize(d),
        None => {
            let mut out = String::new();
            crate::json::push_char(&mut out, 'n');
            crate::json::push_char(&mut out, 'u');
            crate::json::push_char(&mut out, 'l');
            crate::json::push_char(&mut out, 'l');
            assert(out@ =~= seq!['n', 'u', 'l', 'l']);
            out
        },
    }
}

} // verus!
