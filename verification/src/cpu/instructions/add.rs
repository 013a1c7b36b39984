//! ADD and ADDB: add an operand and the carry flag to the first register.

use vstd::prelude::*;
use crate::device::{AddressMappedDevice, IOMappedDevice};
use crate::cpu::{
    AddressingMode, CPU, Continuation, Fault, Machine, Pins, PinsModel, Step, step_taken,
};
use crate::cpu::model::alu_sum;

verus! {

impl Machine {
    /// The machine after `operand` and the carry flag were added to the first
    /// register: the flags are those of the sum; the register takes the sum.
    pub open spec fn add_to_first(self, operand: u16, byte: bool) -> Machine {
        let (flags, sum) = alu_sum(
            self.flags,
            self.read(self.reg0()),
            operand as int,
            operand,
            byte,
        );
        (Machine { flags, ..self }).write(self.reg0(), sum)
    }

    /// One cycle of an addition. Immediate: ask for the operand, then add it
    /// and step over it. Register: add the second register. Absolute: put the
    /// address together and ask for the operand, then add it. The program
    /// counter moves one byte on at the end, two after a word-wide immediate
    /// operand.
    #[verifier::opaque]
    pub open spec fn add(self, pins: PinsModel, mode: AddressingMode, byte: bool) -> Step {
        match mode {
            AddressingMode::Immediate => if self.cycle == 1 {
                Ok(self.mode_immediate(pins, byte))
            } else if self.cycle == 2 {
                Ok(
                    self.add_to_first(pins.data, byte).advance(
                        if byte {
                            1
                        } else {
                            2
                        },
                    ).finish(pins),
                )
            } else {
                Err(Fault::BadCycle)
            },
            AddressingMode::Register => Ok(
                self.add_to_first(self.read(self.reg1()), byte).advance(1).finish(pins),
            ),
            AddressingMode::Absolute => if 1 <= self.cycle <= 3 {
                self.mode_absolute(pins, byte, Some(Continuation::Data))
            } else if self.cycle == 4 {
                Ok(self.add_to_first(pins.data, byte).advance(1).finish(pins))
            } else {
                Err(Fault::BadCycle)
            },
            AddressingMode::Implied => Err(Fault::BadMode),
        }
    }
}

impl<D: AddressMappedDevice, P: IOMappedDevice> CPU<D, P> {
    fn add_to_first(&mut self, operand: u16, byte: bool)
        ensures
            final(self)@ == old(self)@.add_to_first(operand, byte),
            final(self).same_wiring(old(self)),
    {
        let r0 = self.instruction.metadata.reg0();
        let val = self.read_selected(r0);
        let sum = self.add_with_carry(val, operand as u32, operand, byte);
        self.write_selected(r0, sum);
    }

    /// Adds the second register to the first and ends the instruction.
    fn add_second(&mut self, pins: &mut Pins, byte: bool)
        ensures
            (final(self)@, final(pins)@) == old(self)@.add_to_first(
                old(self)@.read(old(self)@.reg1()),
                byte,
            ).advance(1).finish(old(pins)@),
            final(self).same_wiring(old(self)),
    {
        let val2 = self.read_selected(self.instruction.metadata.reg1());
        self.add_to_first(val2, byte);
        self.pc.increment();
        self.finish(pins);
    }

    fn add_word_or_byte(&mut self, pins: &mut Pins, mode: AddressingMode, byte: bool) -> (result:
        Result<(), Fault>)
        ensures
            step_taken(
                old(self)@.add(old(pins)@, mode, byte),
                result,
                (old(self)@, old(pins)@),
                (final(self)@, final(pins)@),
            ),
            final(self).same_wiring(old(self)),
    {
        proof {
            reveal(Machine::add);
        }
        match mode {
            AddressingMode::Immediate => match self.cycle {
                1 => {
                    self.mode_immediate(pins, byte);
                    Ok(())
                },
                2 => {
                    self.add_to_first(pins.data, byte);
                    if byte {
                        self.pc.increment();
                    } else {
                        self.pc.increment_amount(2);
                    }
                    self.finish(pins);
                    Ok(())
                },
                _ => Err(Fault::BadCycle),
            },
            AddressingMode::Register => {
                self.add_second(pins, byte);
                Ok(())
            },
            AddressingMode::Absolute => match self.cycle {
                1..=3 => {
                    self.mode_absolute(pins, byte, Some(Continuation::Data));
                    Ok(())
                },
                4 => {
                    self.add_to_first(pins.data, byte);
                    self.pc.increment();
                    self.finish(pins);
                    Ok(())
                },
                _ => Err(Fault::BadCycle),
            },
            AddressingMode::Implied => Err(Fault::BadMode),
        }
    }

    /// Adds words.
    pub fn ADD(&mut self, pins: &mut Pins, mode: AddressingMode) -> (result: Result<(), Fault>)
        ensures
            step_taken(
                old(self)@.add(old(pins)@, mode, false),
                result,
                (old(self)@, old(pins)@),
                (final(self)@, final(pins)@),
            ),
            final(self).same_wiring(old(self)),
    {
        self.add_word_or_byte(pins, mode, false)
    }

    /// Adds bytes.
    pub fn ADDB(&mut self, pins: &mut Pins, mode: AddressingMode) -> (result: Result<(), Fault>)
        ensures
            step_taken(
                old(self)@.add(old(pins)@, mode, true),
                result,
                (old(self)@, old(pins)@),
                (final(self)@, final(pins)@),
            ),
            final(self).same_wiring(old(self)),
    {
        self.add_word_or_byte(pins, mode, true)
    }
}

} // verus!
