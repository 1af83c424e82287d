//! Formatting of signed durations as `HH:MM:SS`-style strings.
//!
//! A signed time span, held as a sign flag plus a magnitude in whole
//! seconds and sub-second nanoseconds, is decomposed into bounded
//! hour/minute/second and millisecond/microsecond/nanosecond fields and
//! rendered in several fixed layouts, with optional fractional-second
//! suffixes of selectable precision, or by an adaptive formatter that
//! picks the shortest sensible form for the magnitude at hand.

pub mod digits;
pub mod fracts;
pub mod duration;
pub mod fmt;
pub mod convert;
pub mod laws;
