//! CMP and CMPB: compare the first register with an operand.

use vstd::prelude::*;
use crate::device::{AddressMappedDevice, IOMappedDevice};
use crate::cpu::{
    AddressingMode, CPU, Continuation, Fault, Machine, Pins, PinsModel, Step, step_taken,
};
use crate::cpu::model::compare_flags;

verus! {

/// `value` as it enters a comparison: whole, or only its low byte.
pub open spec fn compared(value: u16, byte: bool) -> u16 {
    if byte {
        value % 256
    } else {
        value
    }
}

impl Machine {
    /// The machine after the first register was compared with `operand`.
    pub open spec fn compare_first(self, operand: u16, byte: bool) -> Machine {
        Machine {
            flags: compare_flags(
                self.flags,
                compared(self.read(self.reg0()), byte),
                compared(operand, byte),
                byte,
            ),
            ..self
        }
    }

    /// One cycle of a comparison. Immediate: ask for the operand, then compare
    /// and step over it. Register: compare with the second register.
    /// Absolute: put the address together and ask for the operand, then
    /// compare and step one byte on. After an operand from the bus the bus
    /// width goes back to a byte, except after a byte-wide immediate operand,
    /// where it already is one.
    #[verifier::opaque]
    pub open spec fn compare(self, pins: PinsModel, mode: AddressingMode, byte: bool) -> Step {
        match mode {
            AddressingMode::Immediate => if self.cycle == 1 {
                Ok(self.mode_immediate(pins, byte))
            } else if self.cycle == 2 {
                let m = self.compare_first(pins.data, byte);
                if byte {
                    Ok(m.advance(1).finish(pins))
                } else {
                    Ok((Machine { word: false, ..m }).advance(2).finish(pins))
                }
            } else {
                Err(Fault::BadCycle)
            },
            AddressingMode::Register => Ok(
                self.compare_first(self.read(self.reg1()), byte).finish(pins),
            ),
            AddressingMode::Absolute => if 1 <= self.cycle <= 3 {
                self.mode_absolute(pins, byte, Some(Continuation::Data))
            } else if self.cycle == 4 {
                let m = self.compare_first(pins.data, byte);
                Ok((Machine { word: false, ..m }).advance(1).finish(pins))
            } else {
                Err(Fault::BadCycle)
            },
            AddressingMode::Implied => Err(Fault::BadMode),
        }
    }
}

fn narrowed(value: u16, byte: bool) -> (r: u16)
    ensures
        r == compared(value, byte),
        byte ==> r < 256,
{
    if byte {
        value % 256
    } else {
        value
    }
}

impl<D: AddressMappedDevice, P: IOMappedDevice> CPU<D, P> {
    fn compare_first(&mut self, operand: u16, byte: bool)
        ensures
            final(self)@ == old(self)@.compare_first(operand, byte),
            final(self).same_wiring(old(self)),
    {
        let reg = self.read_selected(self.instruction.metadata.reg0());
        self.compare(narrowed(reg, byte), narrowed(operand, byte), byte);
    }

    fn compare_word_or_byte(&mut self, pins: &mut Pins, mode: AddressingMode, byte: bool) -> (result:
        Result<(), Fault>)
        ensures
            step_taken(
                old(self)@.compare(old(pins)@, mode, byte),
                result,
                (old(self)@, old(pins)@),
                (final(self)@, final(pins)@),
            ),
            final(self).same_wiring(old(self)),
    {
        proof {
            reveal(Machine::compare);
        }
        match mode {
            AddressingMode::Immediate => match self.cycle {
                1 => {
                    self.mode_immediate(pins, byte);
                    Ok(())
                },
                2 => {
                    self.compare_first(pins.data, byte);
                    if byte {
                        self.pc.increment();
                    } else {
                        self.word = false;
                        self.pc.increment_amount(2);
                    }
                    self.finish(pins);
                    Ok(())
                },
                _ => Err(Fault::BadCycle),
            },
            AddressingMode::Register => {
                let reg1 = self.read_selected(self.instruction.metadata.reg1());
                self.compare_first(reg1, byte);
                self.finish(pins);
                Ok(())
            },
            AddressingMode::Absolute => match self.cycle {
                1..=3 => {
                    self.mode_absolute(pins, byte, Some(Continuation::Data));
                    Ok(())
                },
                4 => {
                    self.compare_first(pins.data, byte);
                    self.word = false;
                    self.pc.increment();
                    self.finish(pins);
                    Ok(())
                },
                _ => Err(Fault::BadCycle),
            },
            AddressingMode::Implied => Err(Fault::BadMode),
        }
    }

    /// Compares words.
    pub fn CMP(&mut self, pins: &mut Pins, mode: AddressingMode) -> (result: Result<(), Fault>)
        ensures
            step_taken(
                old(self)@.compare(old(pins)@, mode, false),
                result,
                (old(self)@, old(pins)@),
                (final(self)@, final(pins)@),
            ),
            final(self).same_wiring(old(self)),
    {
        self.compare_word_or_byte(pins, mode, false)
    }

    /// Compares bytes.
    pub fn CMPB(&mut self, pins: &mut Pins, mode: AddressingMode) -> (result: Result<(), Fault>)
        ensures
            step_taken(
                old(self)@.compare(old(pins)@, mode, true),
                result,
                (old(self)@, old(pins)@),
                (final(self)@, final(pins)@),
            ),
            final(self).same_wiring(old(self)),
    {
        self.compare_word_or_byte(pins, mode, true)
    }
}

} // verus!
