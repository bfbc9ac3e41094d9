//! Frequencies, as used by the timer configuration.

use vstd::prelude::*;

verus! {

/// A frequency, held as a whole number of hertz.
#[derive(Clone, Copy, Debug, PartialEq, Eq, Structural)]
pub struct Rate {
    hz: u32,
}

impl Rate {
    /// The frequency in hertz.
    pub closed spec fn hz(self) -> u32 {
        self.hz
    }

    /// A frequency of `hz` hertz.
    pub fn from_hz(hz: u32) -> (r: Rate)
        ensures
            r.hz() == hz,
    {
        Rate { hz }
    }

    /// A frequency of `khz` kilohertz.
    pub fn from_khz(khz: u32) -> (r: Rate)
        requires
            khz * 1000 <= u32::MAX,
        ensures
            r.hz() == khz * 1000,
    {
        Rate { hz: khz * 1000 }
    }

    /// A frequency of `mhz` megahertz.
    pub fn from_mhz(mhz: u32) -> (r: Rate)
        requires
            mhz * 1_000_000 <= u32::MAX,
        ensures
            r.hz() == mhz * 1_000_000,
    {
        Rate { hz: mhz * 1_000_000 }
    }

    /// Two rates are equal exactly when they hold the same number of hertz.
    pub proof fn lemma_hz_determines_rate(a: Rate, b: Rate)
        ensures
            a.hz() == b.hz() <==> a == b,
    {
    }

    /// The frequency in hertz.
    pub fn as_hz(&self) -> (r: u32)
        ensures
            r == self.hz(),
    {
        self.hz
    }
}

} // verus!
