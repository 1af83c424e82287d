//! Selection of the displayed sub-second precision.

use vstd::prelude::*;

verus! {

/// How much of the sub-second fraction of a duration is rendered:
/// millisecond, microsecond, or nanosecond precision.
#[derive(Clone, Copy, PartialEq, Eq, Structural, Debug)]
pub enum FractPartOfDuration {
    Milliseconds,
    Microseconds,
    Nanoseconds,
}

impl FractPartOfDuration {
    /// The number of fractional units that make up one second at this
    /// precision.
    pub open spec fn spec_units_per_sec(self) -> u32 {
        match self {
            FractPartOfDuration::Milliseconds => 1_000,
            FractPartOfDuration::Microseconds => 1_000_000,
            FractPartOfDuration::Nanoseconds => 1_000_000_000,
        }
    }

    /// The number of digits rendered after the decimal point at this
    /// precision.
    pub open spec fn spec_decimal_places(self) -> usize {
        match self {
            FractPartOfDuration::Milliseconds => 3,
            FractPartOfDuration::Microseconds => 6,
            FractPartOfDuration::Nanoseconds => 9,
        }
    }

    /// Returns the number of fractional units per second.
    pub fn units_per_sec(&self) -> (r: u32)
        ensures
            r == self.spec_units_per_sec(),
    {
        match self {
            FractPartOfDuration::Milliseconds => 1_000,
            FractPartOfDuration::Microseconds => 1_000_000,
            FractPartOfDuration::Nanoseconds => 1_000_000_000,
        }
    }

    /// Returns the number of rendered fractional digits.
    pub fn decimal_places(&self) -> (r: usize)
        ensures
            r == self.spec_decimal_places(),
    {
        match self {
            FractPartOfDuration::Milliseconds => 3,
            FractPartOfDuration::Microseconds => 6,
            FractPartOfDuration::Nanoseconds => 9,
        }
    }
}

} // verus!
