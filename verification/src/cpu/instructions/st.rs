//! ST and STB: store the first register in memory.

use vstd::prelude::*;
use crate::device::{AddressMappedDevice, IOMappedDevice};
use crate::cpu::{
    AddressingMode, CPU, Continuation, Fault, Machine, Pins, PinsModel, Step, step_taken,
};

verus! {

impl Machine {
    /// One cycle of a store: put the address together and ask for the first
    /// register to be written there, then end.
    #[verifier::opaque]
    pub open spec fn store(self, pins: PinsModel, mode: AddressingMode, byte: bool) -> Step {
        match mode {
            AddressingMode::Absolute => if 1 <= self.cycle <= 3 {
                self.mode_absolute(pins, byte, Some(Continuation::Store))
            } else if self.cycle == 4 {
                Ok(self.finish(pins))
            } else {
                Err(Fault::BadCycle)
            },
            _ => Err(Fault::BadMode),
        }
    }
}

impl<D: AddressMappedDevice, P: IOMappedDevice> CPU<D, P> {
    fn store_word_or_byte(&mut self, pins: &mut Pins, mode: AddressingMode, byte: bool) -> (result:
        Result<(), Fault>)
        ensures
            step_taken(
                old(self)@.store(old(pins)@, mode, byte),
                result,
                (old(self)@, old(pins)@),
                (final(self)@, final(pins)@),
            ),
            final(self).same_wiring(old(self)),
    {
        proof {
            reveal(Machine::store);
        }
        match mode {
            AddressingMode::Absolute => match self.cycle {
                1..=3 => {
                    self.mode_absolute(pins, byte, Some(Continuation::Store));
                    Ok(())
                },
                4 => {
                    self.finish(pins);
                    Ok(())
                },
                _ => Err(Fault::BadCycle),
            },
            _ => Err(Fault::BadMode),
        }
    }

    /// Stores a word.
    pub fn ST(&mut self, pins: &mut Pins, mode: AddressingMode) -> (result: Result<(), Fault>)
        ensures
            step_taken(
                old(self)@.store(old(pins)@, mode, false),
                result,
                (old(self)@, old(pins)@),
                (final(self)@, final(pins)@),
            ),
            final(self).same_wiring(old(self)),
    {
        self.store_word_or_byte(pins, mode, false)
    }

    /// Stores a byte.
    pub fn STB(&mut self, pins: &mut Pins, mode: AddressingMode) -> (result: Result<(), Fault>)
        ensures
            step_taken(
                old(self)@.store(old(pins)@, mode, true),
                result,
                (old(self)@, old(pins)@),
                (final(self)@, final(pins)@),
            ),
            final(self).same_wiring(old(self)),
    {
        self.store_word_or_byte(pins, mode, true)
    }
}

} // verus!
