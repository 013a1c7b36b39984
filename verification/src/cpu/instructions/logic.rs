//! AND, XOR and XORB: combine the first register with an operand, bit by bit.

use vstd::prelude::*;
use crate::device::{AddressMappedDevice, IOMappedDevice};
use crate::cpu::{
    AddressingMode, CPU, Continuation, Fault, Machine, Pins, PinsModel, Step, step_taken,
};
use crate::cpu::model::decide_zn;

verus! {

/// How two words are combined.
#[derive(Debug, Clone, Copy, PartialEq, Eq, Structural)]
pub enum Logic {
    /// A bit is set where both have it set.
    And,
    /// A bit is set where exactly one has it set.
    Xor,
}

/// Two words combined.
pub open spec fn combined(op: Logic, a: u16, b: u16) -> u16 {
    match op {
        Logic::And => a & b,
        Logic::Xor => a ^ b,
    }
}

impl Machine {
    /// The machine after the first register was combined with `operand`: the
    /// register takes the result, and Zero and Negative are decided by it.
    pub open spec fn combine_first(self, op: Logic, operand: u16, byte: bool) -> Machine {
        let res = combined(op, self.read(self.reg0()), operand);
        let m = self.write(self.reg0(), res);
        Machine { flags: decide_zn(m.flags, res, byte), ..m }
    }

    /// One cycle of a logic instruction. Immediate: ask for the operand, then
    /// combine and step over it. Register: combine with the second register.
    /// Absolute: put the address together and ask for the operand, then
    /// combine and step on, by as much as after an immediate operand. After
    /// an operand from the bus the bus width goes back to a byte, except after
    /// a byte-wide immediate operand, where it already is one.
    #[verifier::opaque]
    pub open spec fn logic(self, pins: PinsModel, op: Logic, mode: AddressingMode, byte: bool)
        -> Step {
        let width: int = if byte {
            1
        } else {
            2
        };
        match mode {
            AddressingMode::Immediate => if self.cycle == 1 {
                Ok(self.mode_immediate(pins, byte))
            } else if self.cycle == 2 {
                let m = self.combine_first(op, pins.data, byte).advance(width);
                if byte {
                    Ok(m.finish(pins))
                } else {
                    Ok((Machine { word: false, ..m }).finish(pins))
                }
            } else {
                Err(Fault::BadCycle)
            },
            AddressingMode::Register => Ok(
                self.combine_first(op, self.read(self.reg1()), byte).finish(pins),
            ),
            AddressingMode::Absolute => if 1 <= self.cycle <= 3 {
                self.mode_absolute(pins, byte, Some(Continuation::Data))
            } else if self.cycle == 4 {
                let m = self.combine_first(op, pins.data, byte).advance(width);
                Ok((Machine { word: false, ..m }).finish(pins))
            } else {
                Err(Fault::BadCycle)
            },
            AddressingMode::Implied => Err(Fault::BadMode),
        }
    }
}

impl<D: AddressMappedDevice, P: IOMappedDevice> CPU<D, P> {
    fn combine_first(&mut self, op: Logic, operand: u16, byte: bool)
        ensures
            final(self)@ == old(self)@.combine_first(op, operand, byte),
            final(self).same_wiring(old(self)),
    {
        let r0 = self.instruction.metadata.reg0();
        let reg_value = self.read_selected(r0);
        let res = match op {
            Logic::And => reg_value & operand,
            Logic::Xor => reg_value ^ operand,
        };
        self.write_selected(r0, res);
        self.set_zn(res, byte);
    }

    fn combine(&mut self, pins: &mut Pins, op: Logic, mode: AddressingMode, byte: bool) -> (result:
        Result<(), Fault>)
        ensures
            step_taken(
                old(self)@.logic(old(pins)@, op, mode, byte),
                result,
                (old(self)@, old(pins)@),
                (final(self)@, final(pins)@),
            ),
            final(self).same_wiring(old(self)),
    {
        proof {
            reveal(Machine::logic);
        }
        match mode {
            AddressingMode::Immediate => match self.cycle {
                1 => {
                    self.mode_immediate(pins, byte);
                    Ok(())
                },
                2 => {
                    self.combine_first(op, pins.data, byte);
                    if byte {
                        self.pc.increment();
                    } else {
                        self.pc.increment_amount(2);
                        self.word = false;
                    }
                    self.finish(pins);
                    Ok(())
                },
                _ => Err(Fault::BadCycle),
            },
            AddressingMode::Register => {
                let operand = self.read_selected(self.instruction.metadata.reg1());
                self.combine_first(op, operand, byte);
                self.finish(pins);
                Ok(())
            },
            AddressingMode::Absolute => match self.cycle {
                1..=3 => {
                    self.mode_absolute(pins, byte, Some(Continuation::Data));
                    Ok(())
                },
                4 => {
                    self.combine_first(op, pins.data, byte);
                    if byte {
                        self.pc.increment();
                    } else {
                        self.pc.increment_amount(2);
                    }
                    self.word = false;
                    self.finish(pins);
                    Ok(())
                },
                _ => Err(Fault::BadCycle),
            },
            AddressingMode::Implied => Err(Fault::BadMode),
        }
    }

    /// Keeps the bits of the first register that the operand has too.
    pub fn AND(&mut self, pins: &mut Pins, mode: AddressingMode) -> (result: Result<(), Fault>)
        ensures
            step_taken(
                old(self)@.logic(old(pins)@, Logic::And, mode, false),
                result,
                (old(self)@, old(pins)@),
                (final(self)@, final(pins)@),
            ),
            final(self).same_wiring(old(self)),
    {
        self.combine(pins, Logic::And, mode, false)
    }

    /// Flips the bits of the first register that the operand has set.
    pub fn XOR(&mut self, pins: &mut Pins, mode: AddressingMode) -> (result: Result<(), Fault>)
        ensures
            step_taken(
                old(self)@.logic(old(pins)@, Logic::Xor, mode, false),
                result,
                (old(self)@, old(pins)@),
                (final(self)@, final(pins)@),
            ),
            final(self).same_wiring(old(self)),
    {
        self.combine(pins, Logic::Xor, mode, false)
    }

    /// Flips the bits of the first register that the operand has set, byte-wide.
    pub fn XORB(&mut self, pins: &mut Pins, mode: AddressingMode) -> (result: Result<(), Fault>)
        ensures
            step_taken(
                old(self)@.logic(old(pins)@, Logic::Xor, mode, true),
                result,
                (old(self)@, old(pins)@),
                (final(self)@, final(pins)@),
            ),
            final(self).same_wiring(old(self)),
    {
        self.combine(pins, Logic::Xor, mode, true)
    }
}

} // verus!
