//! The signed duration value and its decomposition into bounded fields.

use vstd::prelude::*;
use vstd::arithmetic::div_mod::lemma_div_is_ordered;

verus! {

/// A signed time span at nanosecond resolution, held as a sign flag plus
/// a non-negative magnitude: whole seconds and a sub-second remainder in
/// nanoseconds.
///
/// A well-formed value keeps the remainder below one second and never
/// flags a zero magnitude as negative, so every span has exactly one
/// representation.
#[derive(Clone, Copy, PartialEq, Eq, Structural, Debug)]
pub struct Duration {
    /// True when the span is negative; always false for a zero span.
    pub negative: bool,
    /// Magnitude in whole seconds.
    pub secs: u64,
    /// Sub-second part of the magnitude, in nanoseconds.
    pub subsec_nanos: u32,
}

impl Duration {
    /// Well-formedness: the sub-second remainder is below one second and
    /// only a non-zero magnitude may be negative.
    pub open spec fn wf(self) -> bool {
        &&& self.subsec_nanos < 1_000_000_000
        &&& (self.negative ==> self.secs > 0 || self.subsec_nanos > 0)
    }

    /// The magnitude of the span in nanoseconds.
    pub open spec fn abs_nanos(self) -> nat {
        self.secs as nat * 1_000_000_000 + self.subsec_nanos as nat
    }

    /// The span in nanoseconds, with its sign.
    pub open spec fn signed_nanos(self) -> int {
        if self.negative {
            -(self.abs_nanos() as int)
        } else {
            self.abs_nanos() as int
        }
    }

    /// The hours field of the magnitude; unbounded.
    pub open spec fn spec_hours(self) -> u64 {
        self.secs / 3600
    }

    /// The minutes field of the magnitude; below 60.
    pub open spec fn spec_minutes(self) -> u64 {
        (self.secs / 60) % 60
    }

    /// The seconds field of the magnitude; below 60.
    pub open spec fn spec_seconds(self) -> u64 {
        self.secs % 60
    }

    /// The milliseconds field of the magnitude; below 1000.
    pub open spec fn spec_millis(self) -> u32 {
        self.subsec_nanos / 1_000_000
    }

    /// The microseconds field of the magnitude; below 1000.
    pub open spec fn spec_micros(self) -> u32 {
        (self.subsec_nanos / 1_000) % 1_000
    }

    /// The nanoseconds field of the magnitude; below 1000.
    pub open spec fn spec_nanos(self) -> u32 {
        self.subsec_nanos % 1_000
    }

    /// Makes a span from a sign flag and a non-negative magnitude given
    /// as whole seconds plus sub-second nanoseconds. A zero magnitude is
    /// never negative, whatever the flag says.
    pub fn new(negative: bool, secs: u64, subsec_nanos: u32) -> (r: Duration)
        requires
            subsec_nanos < 1_000_000_000,
        ensures
            r.wf(),
            r.secs == secs,
            r.subsec_nanos == subsec_nanos,
            r.negative == (negative && (secs > 0 || subsec_nanos > 0)),
    {
        Duration { negative: negative && (secs > 0 || subsec_nanos > 0), secs, subsec_nanos }
    }

    /// Makes a span from signed whole seconds and a signed sub-second
    /// remainder in nanoseconds. The two parts may carry different
    /// signs; the span denoted is their sum, `secs` seconds plus `nanos`
    /// nanoseconds. In particular a zero `secs` with a negative `nanos`
    /// yields a negative span.
    pub fn from_secs_nanos(secs: i64, nanos: i32) -> (r: Duration)
        requires
            -1_000_000_000 < nanos < 1_000_000_000,
        ensures
            r.wf(),
            r.signed_nanos() == secs * 1_000_000_000 + nanos,
            r.negative == (secs * 1_000_000_000 + nanos < 0),
    {
        if secs > 0 && nanos < 0 {
            // borrow one second from the whole-second part
            let s = (secs - 1) as u64;
            let n = (nanos + 1_000_000_000) as u32;
            Duration::new(false, s, n)
        } else if secs < 0 && nanos > 0 {
            // give one second back to the sub-second part
            let s_abs = abs_u64_of_i64(secs);
            let s = s_abs - 1;
            let n = (1_000_000_000 - nanos) as u32;
            Duration::new(true, s, n)
        } else {
            let neg = secs < 0 || nanos < 0;
            let s = abs_u64_of_i64(secs);
            let n = if nanos >= 0 {
                nanos as u32
            } else {
                (-nanos) as u32
            };
            Duration::new(neg, s, n)
        }
    }

    /// Whether the span is negative.
    pub fn is_negative(&self) -> (r: bool)
        ensures
            r == self.negative,
    {
        self.negative
    }

    /// The absolute value of the hours part; unbounded.
    pub fn part_of_hours_abs(&self) -> (r: u64)
        ensures
            r == self.spec_hours(),
    {
        self.secs / 3600
    }

    /// The absolute value of the minutes part, in `[0, 59]`.
    pub fn part_of_minutes_abs(&self) -> (r: u64)
        ensures
            r == self.spec_minutes(),
            r < 60,
    {
        (self.secs / 60) % 60
    }

    /// The absolute value of the seconds part, in `[0, 59]`.
    pub fn part_of_seconds_abs(&self) -> (r: u64)
        ensures
            r == self.spec_seconds(),
            r < 60,
    {
        self.secs % 60
    }

    /// The absolute value of the milliseconds part, in `[0, 999]`.
    pub fn part_of_milliseconds_abs(&self) -> (r: u64)
        requires
            self.wf(),
        ensures
            r == self.spec_millis(),
            r < 1000,
    {
        (self.subsec_nanos / 1_000_000) as u64
    }

    /// The absolute value of the microseconds part, in `[0, 999]`.
    pub fn part_of_microseconds_abs(&self) -> (r: u64)
        ensures
            r == self.spec_micros(),
            r < 1000,
    {
        ((self.subsec_nanos / 1_000) % 1_000) as u64
    }

    /// The absolute value of the nanoseconds part, in `[0, 999]`.
    pub fn part_of_nanoseconds_abs(&self) -> (r: u64)
        ensures
            r == self.spec_nanos(),
            r < 1000,
    {
        (self.subsec_nanos % 1_000) as u64
    }

    /// The hours part, negative for negative spans.
    pub fn part_of_hours(&self) -> (r: i64)
        ensures
            r == if self.negative {
                -(self.spec_hours() as int)
            } else {
                self.spec_hours() as int
            },
    {
        let h = self.part_of_hours_abs();
        proof {
            lemma_div_is_ordered(self.secs as int, u64::MAX as int, 3600);
        }
        if self.negative {
            -(h as i64)
        } else {
            h as i64
        }
    }

    /// The minutes part, in `[-59, 59]`, negative for negative spans.
    pub fn part_of_minutes(&self) -> (r: i64)
        ensures
            r == if self.negative {
                -(self.spec_minutes() as int)
            } else {
                self.spec_minutes() as int
            },
            -60 < r < 60,
    {
        let m = self.part_of_minutes_abs();
        if self.negative {
            -(m as i64)
        } else {
            m as i64
        }
    }

    /// The seconds part, in `[-59, 59]`, negative for negative spans.
    pub fn part_of_seconds(&self) -> (r: i64)
        ensures
            r == if self.negative {
                -(self.spec_seconds() as int)
            } else {
                self.spec_seconds() as int
            },
            -60 < r < 60,
    {
        let s = self.part_of_seconds_abs();
        if self.negative {
            -(s as i64)
        } else {
            s as i64
        }
    }

    /// The milliseconds part, in `[-999, 999]`, negative for negative
    /// spans.
    pub fn part_of_milliseconds(&self) -> (r: i64)
        requires
            self.wf(),
        ensures
            r == if self.negative {
                -(self.spec_millis() as int)
            } else {
                self.spec_millis() as int
            },
            -1000 < r < 1000,
    {
        let m = self.part_of_milliseconds_abs();
        if self.negative {
            -(m as i64)
        } else {
            m as i64
        }
    }

    /// The microseconds part, in `[-999, 999]`, negative for negative
    /// spans.
    pub fn part_of_microseconds(&self) -> (r: i64)
        ensures
            r == if self.negative {
                -(self.spec_micros() as int)
            } else {
                self.spec_micros() as int
            },
            -1000 < r < 1000,
    {
        let m = self.part_of_microseconds_abs();
        if self.negative {
            -(m as i64)
        } else {
            m as i64
        }
    }

    /// The nanoseconds part, in `[-999, 999]`, negative for negative
    /// spans.
    pub fn part_of_nanoseconds(&self) -> (r: i64)
        ensures
            r == if self.negative {
                -(self.spec_nanos() as int)
            } else {
                self.spec_nanos() as int
            },
            -1000 < r < 1000,
    {
        let n = self.part_of_nanoseconds_abs();
        if self.negative {
            -(n as i64)
        } else {
            n as i64
        }
    }

    /// The whole sub-second remainder in nanoseconds, negative for
    /// negative spans.
    pub fn subsecs(&self) -> (r: i64)
        ensures
            r == if self.negative {
                -(self.subsec_nanos as int)
            } else {
                self.subsec_nanos as int
            },
    {
        if self.negative {
            -(self.subsec_nanos as i64)
        } else {
            self.subsec_nanos as i64
        }
    }

    /// The whole sub-second remainder in nanoseconds, as a magnitude.
    pub fn unsigned_subsecs(&self) -> (r: u64)
        ensures
            r == self.subsec_nanos,
    {
        self.subsec_nanos as u64
    }
}

/// The magnitude of a signed 64-bit integer.
fn abs_u64_of_i64(x: i64) -> (r: u64)
    ensures
        r as int == if x >= 0 {
            x as int
        } else {
            -(x as int)
        },
{
    if x >= 0 {
        x as u64
    } else {
        ((-(x + 1)) as u64) + 1
    }
}

} // verus!
