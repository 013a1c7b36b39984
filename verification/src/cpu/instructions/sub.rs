//! SUB and SUBB: subtract an operand from the first register by adding its
//! two's complement and the carry flag.

use vstd::prelude::*;
use crate::device::{AddressMappedDevice, IOMappedDevice};
use crate::cpu::{
    AddressingMode, CPU, Continuation, Fault, Machine, Pins, PinsModel, Step, step_taken,
};
use crate::cpu::model::alu_sum;

verus! {

/// The two's complement of `value` in a byte or in a word, as a word.
pub open spec fn complement(value: u16, byte: bool) -> u16 {
    if byte {
        ((((value ^ 0xFF) as int) + 1) % 0x1_0000) as u16
    } else {
        ((((value ^ 0xFFFF) as int) + 1) % 0x1_0000) as u16
    }
}

impl Machine {
    /// The machine after an operand from the bus was subtracted from the
    /// first register. A word is complemented first and cut to a word; a byte
    /// is complemented inside the sum. Overflow is decided with the operand's
    /// low byte inverted.
    pub open spec fn subtract_operand(self, operand: u16, byte: bool) -> Machine {
        let addend = if byte {
            ((operand ^ 0xFF) as int) + 1
        } else {
            complement(operand, false) as int
        };
        let (flags, sum) = alu_sum(
            self.flags,
            self.read(self.reg0()),
            addend,
            operand ^ 0xFF,
            byte,
        );
        (Machine { flags, ..self }).write(self.reg0(), sum)
    }

    /// The machine after the second register was subtracted from the first:
    /// its complement, cut to a word, is added, and decides Overflow.
    pub open spec fn subtract_register(self, byte: bool) -> Machine {
        let addend = complement(self.read(self.reg1()), byte);
        let (flags, sum) = alu_sum(self.flags, self.read(self.reg0()), addend as int, addend, byte);
        (Machine { flags, ..self }).write(self.reg0(), sum)
    }

    /// One cycle of a subtraction; the cycles are those of an addition.
    #[verifier::opaque]
    pub open spec fn sub(self, pins: PinsModel, mode: AddressingMode, byte: bool) -> Step {
        match mode {
            AddressingMode::Immediate => if self.cycle == 1 {
                Ok(self.mode_immediate(pins, byte))
            } else if self.cycle == 2 {
                Ok(
                    self.subtract_operand(pins.data, byte).advance(
                        if byte {
                            1
                        } else {
                            2
                        },
                    ).finish(pins),
                )
            } else {
                Err(Fault::BadCycle)
            },
            AddressingMode::Register => Ok(self.subtract_register(byte).advance(1).finish(pins)),
            AddressingMode::Absolute => if 1 <= self.cycle <= 3 {
                self.mode_absolute(pins, byte, Some(Continuation::Data))
            } else if self.cycle == 4 {
                Ok(self.subtract_operand(pins.data, byte).advance(1).finish(pins))
            } else {
                Err(Fault::BadCycle)
            },
            AddressingMode::Implied => Err(Fault::BadMode),
        }
    }
}

fn complement_of(value: u16, byte: bool) -> (r: u16)
    ensures
        r == complement(value, byte),
{
    let inverted: u16 = if byte {
        value ^ 0xFF
    } else {
        value ^ 0xFFFF
    };
    ((inverted as u32 + 1) % 0x1_0000) as u16
}

impl<D: AddressMappedDevice, P: IOMappedDevice> CPU<D, P> {
    fn subtract_operand(&mut self, operand: u16, byte: bool)
        ensures
            final(self)@ == old(self)@.subtract_operand(operand, byte),
            final(self).same_wiring(old(self)),
    {
        let r0 = self.instruction.metadata.reg0();
        let val = self.read_selected(r0);
        let addend: u32 = if byte {
            (operand ^ 0xFF) as u32 + 1
        } else {
            complement_of(operand, false) as u32
        };
        let sum = self.add_with_carry(val, addend, operand ^ 0xFF, byte);
        self.write_selected(r0, sum);
    }

    fn subtract_register(&mut self, byte: bool)
        ensures
            final(self)@ == old(self)@.subtract_register(byte),
            final(self).same_wiring(old(self)),
    {
        let r0 = self.instruction.metadata.reg0();
        let val1 = self.read_selected(r0);
        let val2 = complement_of(self.read_selected(self.instruction.metadata.reg1()), byte);
        let sum = self.add_with_carry(val1, val2 as u32, val2, byte);
        self.write_selected(r0, sum);
    }

    /// Subtracts the second register from the first and ends the
    /// instruction.
    fn subtract_second(&mut self, pins: &mut Pins, byte: bool)
        ensures
            (final(self)@, final(pins)@) == old(self)@.subtract_register(byte).advance(1).finish(
                old(pins)@,
            ),
            final(self).same_wiring(old(self)),
    {
        self.subtract_register(byte);
        self.pc.increment();
        self.finish(pins);
    }

    fn subtract_word_or_byte(&mut self, pins: &mut Pins, mode: AddressingMode, byte: bool) -> (result:
        Result<(), Fault>)
        ensures
            step_taken(
                old(self)@.sub(old(pins)@, mode, byte),
                result,
                (old(self)@, old(pins)@),
                (final(self)@, final(pins)@),
            ),
            final(self).same_wiring(old(self)),
    {
        proof {
            reveal(Machine::sub);
        }
        match mode {
            AddressingMode::Immediate => match self.cycle {
                1 => {
                    self.mode_immediate(pins, byte);
                    Ok(())
                },
                2 => {
                    self.subtract_operand(pins.data, byte);
                    if byte {
                        self.pc.increment();
                    } else {
                        self.pc.increment_amount(2);
                    }
                    self.finish(pins);
                    Ok(())
                },
                _ => Err(Fault::BadCycle),
            },
            AddressingMode::Register => {
                self.subtract_second(pins, byte);
                Ok(())
            },
            AddressingMode::Absolute => match self.cycle {
                1..=3 => {
                    self.mode_absolute(pins, byte, Some(Continuation::Data));
                    Ok(())
                },
                4 => {
                    self.subtract_operand(pins.data, byte);
                    self.pc.increment();
                    self.finish(pins);
                    Ok(())
                },
                _ => Err(Fault::BadCycle),
            },
            AddressingMode::Implied => Err(Fault::BadMode),
        }
    }

    /// Subtracts words.
    pub fn SUB(&mut self, pins: &mut Pins, mode: AddressingMode) -> (result: Result<(), Fault>)
        ensures
            step_taken(
                old(self)@.sub(old(pins)@, mode, false),
                result,
                (old(self)@, old(pins)@),
                (final(self)@, final(pins)@),
            ),
            final(self).same_wiring(old(self)),
    {
        self.subtract_word_or_byte(pins, mode, false)
    }

    /// Subtracts bytes.
    pub fn SUBB(&mut self, pins: &mut Pins, mode: AddressingMode) -> (result: Result<(), Fault>)
        ensures
            step_taken(
                old(self)@.sub(old(pins)@, mode, true),
                result,
                (old(self)@, old(pins)@),
                (final(self)@, final(pins)@),
            ),
            final(self).same_wiring(old(self)),
    {
        self.subtract_word_or_byte(pins, mode, true)
    }
}

} // verus!
