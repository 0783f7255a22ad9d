//! The busy-wait delay helper: cycle counts for a core spinning at a known
//! clock.  The spin itself is an instruction loop in the application layer;
//! the library only computes how many cycles it must burn.

use vstd::prelude::*;

verus! {

/// A delay provider pinned to the system clock frequency.
#[derive(Clone, Copy, Debug)]
pub struct AsmDelay {
    pub cpu_freq_hz: u32,
}

impl AsmDelay {
    pub fn new(sys_freq: u32) -> (d: AsmDelay)
        ensures
            d.cpu_freq_hz == sys_freq,
    {
        AsmDelay { cpu_freq_hz: sys_freq }
    }

    /// How many cycles a millisecond pause burns.
    pub fn cycles_for_ms(&self, ms: u32) -> (cycles: u32)
        requires
            (self.cpu_freq_hz / 1000) * ms <= u32::MAX,
        ensures
            cycles == (self.cpu_freq_hz / 1000) * ms,
    {
        (self.cpu_freq_hz / 1000) * ms
    }

    /// How many cycles a microsecond pause burns.
    pub fn cycles_for_us(&self, us: u32) -> (cycles: u32)
        requires
            (self.cpu_freq_hz / 1000000) * us <= u32::MAX,
        ensures
            cycles == (self.cpu_freq_hz / 1000000) * us,
    {
        (self.cpu_freq_hz / 1000000) * us
    }
}

} // verus!
