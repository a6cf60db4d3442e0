//! Clock-tree outputs and bus tokens.
//!
//! The clock tree itself is an external collaborator: drivers in this crate
//! only consume the resolved frequencies recorded in [`Clocks`]. The `Apb1`
//! and `Apb2` tokens stand for exclusive access to the corresponding
//! peripheral-bus enable/reset plumbing.

use crate::time::Hertz;
use vstd::prelude::*;

verus! {

/// Frozen clock-tree configuration: the resolved frequencies that peripheral
/// drivers consume.
#[derive(Clone, Copy, Debug, PartialEq, Eq, Structural)]
pub struct Clocks {
    /// System clock frequency.
    pub sysclk: Hertz,
    /// AHB clock frequency.
    pub hclk: Hertz,
    /// APB1 peripheral clock frequency.
    pub pclk1: Hertz,
    /// APB2 peripheral clock frequency.
    pub pclk2: Hertz,
}

impl Clocks {
    /// Returns the system clock frequency.
    pub fn sysclk(&self) -> (r: Hertz)
        ensures
            r == self.sysclk,
    {
        self.sysclk
    }

    /// Returns the AHB clock frequency.
    pub fn hclk(&self) -> (r: Hertz)
        ensures
            r == self.hclk,
    {
        self.hclk
    }

    /// Returns the APB1 peripheral clock frequency.
    pub fn pclk1(&self) -> (r: Hertz)
        ensures
            r == self.pclk1,
    {
        self.pclk1
    }

    /// Returns the APB2 peripheral clock frequency.
    pub fn pclk2(&self) -> (r: Hertz)
        ensures
            r == self.pclk2,
    {
        self.pclk2
    }
}

/// Token for the APB1 bus enable/reset registers.
pub struct Apb1 {
    /// Count of peripheral enable operations performed through this token.
    pub enables: u32,
}

/// Token for the APB2 bus enable/reset registers.
pub struct Apb2 {
    /// Count of peripheral enable operations performed through this token.
    pub enables: u32,
}

impl Apb1 {
    /// Builds a fresh bus token.
    pub fn new() -> (r: Apb1)
        ensures
            r.enables == 0,
    {
        Apb1 { enables: 0 }
    }
}

impl Apb2 {
    /// Builds a fresh bus token.
    pub fn new() -> (r: Apb2)
        ensures
            r.enables == 0,
    {
        Apb2 { enables: 0 }
    }
}

} // verus!
