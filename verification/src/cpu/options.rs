//! Switches of the emulation.

use vstd::prelude::*;

verus! {

/// Switches of the emulation.
#[derive(Debug, Clone, Copy)]
pub struct EmuOptions {
    flags: u8,
}

impl EmuOptions {
    /// Whether the caller is told to stop once the engine has halted.
    pub closed spec fn leaves_on_halt(&self) -> bool {
        self.flags % 2 == 1
    }

    /// The bits of the switches.
    pub closed spec fn bits(&self) -> u8 {
        self.flags
    }

    /// No switch set.
    pub fn new() -> (r: Self)
        ensures
            r.bits() == 0,
            !r.leaves_on_halt(),
    {
        EmuOptions { flags: 0 }
    }

    /// The switches in `flags`; bit 0 tells the caller to stop on a halt.
    pub fn new_value(flags: u8) -> (r: Self)
        ensures
            r.bits() == flags,
            r.leaves_on_halt() == (flags % 2 == 1),
    {
        EmuOptions { flags }
    }

    /// Whether the caller is told to stop once the engine has halted.
    pub fn exit_on_hlt(&self) -> (b: bool)
        ensures
            b == self.leaves_on_halt(),
    {
        self.flags % 2 == 1
    }

    /// Sets bit 0 and keeps the other switches.
    pub fn set_exit_on_hlt(&mut self)
        ensures
            final(self).leaves_on_halt(),
            final(self).bits() == (old(self).bits() / 2) * 2 + 1,
    {
        self.flags = (self.flags / 2) * 2 + 1;
    }

    /// Clears bit 0 and keeps the other switches.
    pub fn unset_exit_on_hlt(&mut self)
        ensures
            !final(self).leaves_on_halt(),
            final(self).bits() == (old(self).bits() / 2) * 2,
    {
        self.flags = (self.flags / 2) * 2;
    }
}

} // verus!
