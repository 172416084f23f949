//! Fresh identifiers and wall-clock timestamps, drawn from outside crates.
//!
//! Both results depend on the clock (and on a random source), so nothing ties
//! two calls together; callers treat each result as an arbitrary value with
//! the stated shape.

use vstd::prelude::*;

verus! {

/// Relies on `ulid::Ulid::generate` and `ulid::Ulid::to_string`: a fresh
/// ULID rendered in Crockford base32, which is always 26 characters.
#[verifier::external_body]
pub fn new_ulid() -> (r: String)
    ensures
        r@.len() == 26,
{
    ulid::Ulid::generate().to_string()
}

/// Relies on `chrono::Utc::now` and `DateTime::timestamp_millis`: the current
/// wall-clock instant as milliseconds since the Unix epoch. Nothing is
/// promised of the value.
#[verifier::external_body]
pub fn now_millis() -> (r: i64) {
    chrono::Utc::now().timestamp_millis()
}

} // verus!
