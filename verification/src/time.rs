//! Frequency units used throughout the crate.

use vstd::prelude::*;

verus! {

/// A frequency in hertz.
#[derive(Clone, Copy, Debug, PartialEq, Eq, Structural)]
pub struct Hertz(pub u32);

impl Hertz {
    /// Builds a frequency from a count of hertz.
    pub fn hz(value: u32) -> (r: Hertz)
        ensures
            r.0 == value,
    {
        Hertz(value)
    }

    /// Builds a frequency from a count of kilohertz.
    pub fn khz(value: u32) -> (r: Hertz)
        requires
            value * 1000 <= u32::MAX,
        ensures
            r.0 == value * 1000,
    {
        Hertz(value * 1000)
    }

    /// Builds a frequency from a count of megahertz.
    pub fn mhz(value: u32) -> (r: Hertz)
        requires
            value * 1_000_000 <= u32::MAX,
        ensures
            r.0 == value * 1_000_000,
    {
        Hertz(value * 1_000_000)
    }
}

} // verus!
