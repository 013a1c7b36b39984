//! CLC, CLI, CLV and SEI: set or clear one flag.

use vstd::prelude::*;
use crate::device::{AddressMappedDevice, IOMappedDevice};
use crate::cpu::{AddressingMode, CPU, Fault, Flag, Machine, Pins, PinsModel, Step, step_taken};
use crate::flags::with_flag;

verus! {

impl Machine {
    /// The one cycle of an instruction that sets or clears a flag.
    #[verifier::opaque]
    pub open spec fn change_flag(self, pins: PinsModel, flag: Flag, on: bool) -> Step {
        Ok((Machine { flags: with_flag(self.flags, flag, on), ..self }).finish(pins))
    }
}

impl<D: AddressMappedDevice, P: IOMappedDevice> CPU<D, P> {
    fn change_flag(&mut self, pins: &mut Pins, flag: Flag, on: bool) -> (result: Result<(), Fault>)
        ensures
            step_taken(
                old(self)@.change_flag(old(pins)@, flag, on),
                result,
                (old(self)@, old(pins)@),
                (final(self)@, final(pins)@),
            ),
            final(self).same_wiring(old(self)),
    {
        proof {
            reveal(Machine::change_flag);
        }
        self.flags.set(flag, on);
        self.finish(pins);
        Ok(())
    }

    /// Clears Carry.
    pub fn CLC(&mut self, pins: &mut Pins, _mode: AddressingMode) -> (result: Result<(), Fault>)
        ensures
            step_taken(
                old(self)@.change_flag(old(pins)@, Flag::C, false),
                result,
                (old(self)@, old(pins)@),
                (final(self)@, final(pins)@),
            ),
            final(self).same_wiring(old(self)),
    {
        self.change_flag(pins, Flag::C, false)
    }

    /// Clears Interrupt disable.
    pub fn CLI(&mut self, pins: &mut Pins, _mode: AddressingMode) -> (result: Result<(), Fault>)
        ensures
            step_taken(
                old(self)@.change_flag(old(pins)@, Flag::I, false),
                result,
                (old(self)@, old(pins)@),
                (final(self)@, final(pins)@),
            ),
            final(self).same_wiring(old(self)),
    {
        self.change_flag(pins, Flag::I, false)
    }

    /// Clears Overflow.
    pub fn CLV(&mut self, pins: &mut Pins, _mode: AddressingMode) -> (result: Result<(), Fault>)
        ensures
            step_taken(
                old(self)@.change_flag(old(pins)@, Flag::O, false),
                result,
                (old(self)@, old(pins)@),
                (final(self)@, final(pins)@),
            ),
            final(self).same_wiring(old(self)),
    {
        self.change_flag(pins, Flag::O, false)
    }

    /// Sets Interrupt disable.
    pub fn SEI(&mut self, pins: &mut Pins, _mode: AddressingMode) -> (result: Result<(), Fault>)
        ensures
            step_taken(
                old(self)@.change_flag(old(pins)@, Flag::I, true),
                result,
                (old(self)@, old(pins)@),
                (final(self)@, final(pins)@),
            ),
            final(self).same_wiring(old(self)),
    {
        self.change_flag(pins, Flag::I, true)
    }
}

} // verus!
