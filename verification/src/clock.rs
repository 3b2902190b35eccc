//! The wall clock, read through an outside crate. Repository operations
//! take the clock reading as a plain argument, so everything that depends
//! on it is verified for every value the clock could hand back.

use vstd::prelude::*;

verus! {

/// Relies on chrono::Utc::now composed with DateTime::timestamp_micros:
/// the current instant, in microseconds since the Unix epoch. Nothing can
/// be promised of a clock reading.
#[verifier::external_body]
pub fn now_micros() -> i64 {
    chrono::Utc::now().timestamp_micros()
}

} // verus!
