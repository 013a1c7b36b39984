//! DEC and DECB: count a register or a memory operand down by one.

use vstd::prelude::*;
use crate::device::{AddressMappedDevice, IOMappedDevice};
use crate::cpu::{
    AddressingMode, CPU, Continuation, Fault, Machine, Pins, PinsModel, ReadWrite, Step,
    step_taken,
};
use crate::cpu::model::decide_zn;

verus! {

/// `value` less one, wrapping inside a byte or a word. Of a byte only the low
/// eight bits of `value` count.
pub open spec fn decremented(value: u16, byte: bool) -> u16 {
    if byte {
        ((value % 256 + 255) % 256) as u16
    } else {
        ((value + 0xFFFF) % 0x1_0000) as u16
    }
}

impl Machine {
    /// One cycle of a decrement. Register: count the first register down and
    /// decide Zero and Negative by it. Absolute: put the address together and
    /// ask for the operand; decide the flags by the operand less one and ask
    /// for it to be written at the address; end.
    #[verifier::opaque]
    pub open spec fn dec(self, pins: PinsModel, mode: AddressingMode, byte: bool) -> Step {
        match mode {
            AddressingMode::Register => {
                let res = decremented(self.read(self.reg0()), byte);
                Ok(
                    (Machine { flags: decide_zn(self.flags, res, byte), ..self }).write(
                        self.reg0(),
                        res,
                    ).finish(pins),
                )
            },
            AddressingMode::Absolute => if 1 <= self.cycle <= 3 {
                self.mode_absolute(pins, byte, Some(Continuation::Data))
            } else if self.cycle == 4 {
                let res = decremented(pins.data, byte);
                Ok(
                    (
                        Machine { flags: decide_zn(self.flags, res, byte), ..self },
                        pins.write_at(self.temp_addr, res),
                    ),
                )
            } else if self.cycle == 5 {
                Ok(self.finish(pins))
            } else {
                Err(Fault::BadCycle)
            },
            _ => Err(Fault::BadMode),
        }
    }
}

fn one_less(value: u16, byte: bool) -> (r: u16)
    ensures
        r == decremented(value, byte),
{
    if byte {
        (value % 256 + 255) % 256
    } else if value == 0 {
        0xFFFF
    } else {
        value - 1
    }
}

impl<D: AddressMappedDevice, P: IOMappedDevice> CPU<D, P> {
    fn decrement_word_or_byte(&mut self, pins: &mut Pins, mode: AddressingMode, byte: bool) -> (result:
        Result<(), Fault>)
        ensures
            step_taken(
                old(self)@.dec(old(pins)@, mode, byte),
                result,
                (old(self)@, old(pins)@),
                (final(self)@, final(pins)@),
            ),
            final(self).same_wiring(old(self)),
    {
        proof {
            reveal(Machine::dec);
        }
        match mode {
            AddressingMode::Register => {
                let reg_num = self.instruction.metadata.reg0();
                let res = one_less(self.read_selected(reg_num), byte);
                self.set_zn(res, byte);
                self.write_selected(reg_num, res);
                self.finish(pins);
                Ok(())
            },
            AddressingMode::Absolute => match self.cycle {
                1..=3 => {
                    self.mode_absolute(pins, byte, Some(Continuation::Data));
                    Ok(())
                },
                4 => {
                    let res = one_less(pins.data, byte);
                    self.set_zn(res, byte);
                    pins.data = res;
                    pins.address = self.temp_addr;
                    pins.rw = ReadWrite::Write;
                    Ok(())
                },
                5 => {
                    self.finish(pins);
                    Ok(())
                },
                _ => Err(Fault::BadCycle),
            },
            _ => Err(Fault::BadMode),
        }
    }

    /// Counts a word down.
    pub fn DEC(&mut self, pins: &mut Pins, mode: AddressingMode) -> (result: Result<(), Fault>)
        ensures
            step_taken(
                old(self)@.dec(old(pins)@, mode, false),
                result,
                (old(self)@, old(pins)@),
                (final(self)@, final(pins)@),
            ),
            final(self).same_wiring(old(self)),
    {
        self.decrement_word_or_byte(pins, mode, false)
    }

    /// Counts a byte down.
    pub fn DECB(&mut self, pins: &mut Pins, mode: AddressingMode) -> (result: Result<(), Fault>)
        ensures
            step_taken(
                old(self)@.dec(old(pins)@, mode, true),
                result,
                (old(self)@, old(pins)@),
                (final(self)@, final(pins)@),
            ),
            final(self).same_wiring(old(self)),
    {
        self.decrement_word_or_byte(pins, mode, true)
    }
}

} // verus!
