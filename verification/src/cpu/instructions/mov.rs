//! MOV and MOVB: load a register from an immediate operand, from another
//! register or from memory.

use vstd::prelude::*;
use crate::device::{AddressMappedDevice, IOMappedDevice};
use crate::cpu::{
    AddressingMode, CPU, Continuation, Fault, Machine, Pins, PinsModel, Step, step_taken,
};
use crate::cpu::model::decide_zn;

verus! {

impl Machine {
    /// The machine after `value` was put into the register named by
    /// `selector` and Zero and Negative were decided by it.
    pub open spec fn load(self, selector: u8, value: u16, byte: bool) -> Machine {
        let m = self.write(selector, value);
        Machine { flags: decide_zn(m.flags, value, byte), ..m }
    }

    /// One cycle of a move. Immediate: ask for the operand, then load the
    /// first register and step over the operand. Register: load the second
    /// register from the first. Absolute: put the address together and ask
    /// for the operand, then load the first register.
    #[verifier::opaque]
    pub open spec fn mov(self, pins: PinsModel, mode: AddressingMode, byte: bool) -> Step {
        match mode {
            AddressingMode::Immediate => if self.cycle == 1 {
                Ok(self.mode_immediate(pins, byte))
            } else if self.cycle == 2 {
                Ok(
                    self.load(self.reg0(), pins.data, byte).advance(
                        if byte {
                            1
                        } else {
                            2
                        },
                    ).finish(pins),
                )
            } else {
                Err(Fault::BadCycle)
            },
            AddressingMode::Register => Ok(
                self.load(self.reg1(), self.read(self.reg0()), byte).finish(pins),
            ),
            AddressingMode::Absolute => if 1 <= self.cycle <= 3 {
                self.mode_absolute(pins, byte, Some(Continuation::Data))
            } else if self.cycle == 4 {
                Ok(self.load(self.reg0(), pins.data, byte).finish(pins))
            } else {
                Err(Fault::BadCycle)
            },
            AddressingMode::Implied => Err(Fault::BadMode),
        }
    }
}

impl<D: AddressMappedDevice, P: IOMappedDevice> CPU<D, P> {
    fn load(&mut self, selector: u8, value: u16, byte: bool)
        ensures
            final(self)@ == old(self)@.load(selector, value, byte),
            final(self).same_wiring(old(self)),
    {
        self.write_selected(selector, value);
        self.set_zn(value, byte);
    }

    fn move_word_or_byte(&mut self, pins: &mut Pins, mode: AddressingMode, byte: bool) -> (result:
        Result<(), Fault>)
        ensures
            step_taken(
                old(self)@.mov(old(pins)@, mode, byte),
                result,
                (old(self)@, old(pins)@),
                (final(self)@, final(pins)@),
            ),
            final(self).same_wiring(old(self)),
    {
        proof {
            reveal(Machine::mov);
        }
        match mode {
            AddressingMode::Immediate => match self.cycle {
                1 => {
                    self.mode_immediate(pins, byte);
                    Ok(())
                },
                2 => {
                    self.load(self.instruction.metadata.reg0(), pins.data, byte);
                    if byte {
                        self.pc.increment();
                    } else {
                        self.pc.increment_amount(2);
                    }
                    self.finish(pins);
                    Ok(())
                },
                _ => Err(Fault::BadCycle),
            },
            AddressingMode::Register => {
                let r0 = self.instruction.metadata.reg0();
                let r1 = self.instruction.metadata.reg1();
                let val = self.read_selected(r0);
                self.load(r1, val, byte);
                self.finish(pins);
                Ok(())
            },
            AddressingMode::Absolute => match self.cycle {
                1..=3 => {
                    self.mode_absolute(pins, byte, Some(Continuation::Data));
                    Ok(())
                },
                4 => {
                    self.load(self.instruction.metadata.reg0(), pins.data, byte);
                    self.finish(pins);
                    Ok(())
                },
                _ => Err(Fault::BadCycle),
            },
            AddressingMode::Implied => Err(Fault::BadMode),
        }
    }

    /// Moves a word.
    pub fn MOV(&mut self, pins: &mut Pins, mode: AddressingMode) -> (result: Result<(), Fault>)
        ensures
            step_taken(
                old(self)@.mov(old(pins)@, mode, false),
                result,
                (old(self)@, old(pins)@),
                (final(self)@, final(pins)@),
            ),
            final(self).same_wiring(old(self)),
    {
        self.move_word_or_byte(pins, mode, false)
    }

    /// Moves a byte.
    pub fn MOVB(&mut self, pins: &mut Pins, mode: AddressingMode) -> (result: Result<(), Fault>)
        ensures
            step_taken(
                old(self)@.mov(old(pins)@, mode, true),
                result,
                (old(self)@, old(pins)@),
                (final(self)@, final(pins)@),
            ),
            final(self).same_wiring(old(self)),
    {
        self.move_word_or_byte(pins, mode, true)
    }
}

} // verus!
