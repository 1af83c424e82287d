//! Conversions from outside duration types.
//!
//! The three duration types that callers commonly hold — chrono's
//! `TimeDelta`, time's `SignedDuration`, and std's `Duration` — each
//! report their value as whole seconds plus a sub-second remainder in
//! nanoseconds. Only those accessor calls are trusted; turning the two
//! reported numbers into a well-formed [`Duration`] is done by the
//! verified constructors, whose contracts pin the span denoted.

use vstd::prelude::*;
use crate::duration::Duration;

verus! {

/// chrono's duration type, opaque here; only its accessors below are
/// relied on.
#[verifier::external_type_specification]
#[verifier::external_body]
pub struct ExTimeDelta(chrono::TimeDelta);

/// time's duration type, opaque here; only its accessors below are
/// relied on.
#[verifier::external_type_specification]
#[verifier::external_body]
pub struct ExSignedDuration(time::SignedDuration);

/// Relies on chrono::TimeDelta::num_seconds: the whole-second part of
/// the span, truncated toward zero.
pub assume_specification[ chrono::TimeDelta::num_seconds ](d: &chrono::TimeDelta) -> (r: i64)
;

/// Relies on chrono::TimeDelta::subsec_nanos: the sub-second part of
/// the span in nanoseconds. The type stores a magnitude below one
/// second, so the result lies strictly between minus and plus one
/// billion.
pub assume_specification[ chrono::TimeDelta::subsec_nanos ](d: &chrono::TimeDelta) -> (r: i32)
    ensures
        -1_000_000_000 < r < 1_000_000_000,
;

/// Relies on time::SignedDuration::whole_seconds: the whole-second part
/// of the span, truncated toward zero.
pub assume_specification[ time::SignedDuration::whole_seconds ](d: time::SignedDuration) -> (r:
    i64)
;

/// Relies on time::SignedDuration::subsec_nanoseconds: the sub-second
/// part of the span in nanoseconds, held in a field whose range is
/// strictly between minus and plus one billion.
pub assume_specification[ time::SignedDuration::subsec_nanoseconds ](d: time::SignedDuration) -> (
    r: i32)
    ensures
        -1_000_000_000 < r < 1_000_000_000,
;

/// Relies on core::time::Duration::as_secs: the whole-second part of
/// the (non-negative) span.
pub assume_specification[ core::time::Duration::as_secs ](d: &core::time::Duration) -> (r: u64)
;

/// Relies on core::time::Duration::subsec_nanos: the sub-second part of
/// the span in nanoseconds, documented to be less than one billion.
pub assume_specification[ core::time::Duration::subsec_nanos ](d: &core::time::Duration) -> (r:
    u32)
    ensures
        r < 1_000_000_000,
;

impl Duration {
    /// Reads a chrono duration's seconds and sub-second nanoseconds and
    /// builds the span they denote; the meaning of the two numbers is
    /// fixed by [`Duration::from_secs_nanos`].
    pub fn from_chrono(d: &chrono::TimeDelta) -> (r: Duration)
        ensures
            r.wf(),
    {
        let secs = d.num_seconds();
        let nanos = d.subsec_nanos();
        Duration::from_secs_nanos(secs, nanos)
    }

    /// Reads a time duration's seconds and sub-second nanoseconds and
    /// builds the span they denote; the meaning of the two numbers is
    /// fixed by [`Duration::from_secs_nanos`].
    pub fn from_time(d: time::SignedDuration) -> (r: Duration)
        ensures
            r.wf(),
    {
        let secs = d.whole_seconds();
        let nanos = d.subsec_nanoseconds();
        Duration::from_secs_nanos(secs, nanos)
    }

    /// Reads a std duration's seconds and sub-second nanoseconds and
    /// builds the (non-negative) span they denote; the meaning of the
    /// two numbers is fixed by [`Duration::new`].
    pub fn from_std(d: &core::time::Duration) -> (r: Duration)
        ensures
            r.wf(),
            !r.negative,
    {
        let secs = d.as_secs();
        let nanos = d.subsec_nanos();
        Duration::new(false, secs, nanos)
    }
}

} // verus!
