//! SBL, SBLB and ROL: move the bits of a register or of a memory operand one
//! place to the left.

use vstd::prelude::*;
use crate::device::{AddressMappedDevice, IOMappedDevice};
use crate::cpu::{
    AddressingMode, CPU, Continuation, Fault, Flag, Machine, Pins, PinsModel, ReadWrite, Step,
    step_taken,
};
use crate::cpu::model::{is_negative, decide_zn};
use crate::flags::with_flag;

verus! {

/// `value` moved one bit to the left inside a word; with `rotate` the bit
/// that leaves at the top comes back in at the bottom.
pub open spec fn moved_left(value: u16, rotate: bool) -> u16 {
    if rotate {
        ((value * 2) % 0x1_0000 + value / 0x8000) as u16
    } else {
        ((value * 2) % 0x1_0000) as u16
    }
}

/// What a shift leaves behind: the moved value, cut to a byte for a byte.
pub open spec fn kept(value: u16, byte: bool) -> u16 {
    if byte {
        value % 256
    } else {
        value
    }
}

impl Machine {
    /// The status word after the top bit of `value` (of its low byte for a
    /// byte) went into Carry.
    pub open spec fn carry_out(self, value: u16, byte: bool) -> Machine {
        Machine { flags: with_flag(self.flags, Flag::C, is_negative(value, byte)), ..self }
    }

    /// One cycle of a shift to the left. Register: the top bit of the first
    /// register goes into Carry, the register moves left. Absolute: put the
    /// address together and ask for the operand; move the operand left and ask
    /// for it to be written back; end. Zero and Negative are decided by what
    /// the register or the memory takes.
    #[verifier::opaque]
    pub open spec fn shift_left(
        self,
        pins: PinsModel,
        mode: AddressingMode,
        byte: bool,
        rotate: bool,
    ) -> Step {
        match mode {
            AddressingMode::Register => {
                let reg = self.read(self.reg0());
                let res = kept(moved_left(reg, rotate), byte);
                let m = self.carry_out(reg, byte);
                Ok(
                    (Machine { flags: decide_zn(m.flags, res, byte), ..m }).write(
                        self.reg0(),
                        res,
                    ).finish(pins),
                )
            },
            AddressingMode::Absolute => if 1 <= self.cycle <= 3 {
                self.mode_absolute(pins, byte, Some(Continuation::Data))
            } else if self.cycle == 4 {
                let res = kept(moved_left(pins.data, rotate), byte);
                let m = self.carry_out(pins.data, byte);
                Ok(
                    (
                        Machine { flags: decide_zn(m.flags, res, byte), ..m },
                        pins.write_at(self.temp_addr, res),
                    ),
                )
            } else if self.cycle == 5 {
                Ok(self.finish(pins))
            } else {
                Err(Fault::BadCycle)
            },
            _ => Err(Fault::BadMode),
        }
    }
}

fn move_left(value: u16, rotate: bool) -> (r: u16)
    ensures
        r == moved_left(value, rotate),
{
    let doubled: u16 = ((value as u32 * 2) % 0x1_0000) as u16;
    if rotate {
        doubled + value / 0x8000
    } else {
        doubled
    }
}

fn top_bit(value: u16, byte: bool) -> (b: bool)
    ensures
        b == is_negative(value, byte),
{
    if byte {
        value % 256 >= 128
    } else {
        value >= 0x8000
    }
}

impl<D: AddressMappedDevice, P: IOMappedDevice> CPU<D, P> {
    fn shift(&mut self, pins: &mut Pins, mode: AddressingMode, byte: bool, rotate: bool) -> (result:
        Result<(), Fault>)
        ensures
            step_taken(
                old(self)@.shift_left(old(pins)@, mode, byte, rotate),
                result,
                (old(self)@, old(pins)@),
                (final(self)@, final(pins)@),
            ),
            final(self).same_wiring(old(self)),
    {
        proof {
            reveal(Machine::shift_left);
        }
        match mode {
            AddressingMode::Register => {
                let reg_num = self.instruction.metadata.reg0();
                let reg = self.read_selected(reg_num);
                self.flags.set(Flag::C, top_bit(reg, byte));
                let moved = move_left(reg, rotate);
                let res: u16 = if byte {
                    moved % 256
                } else {
                    moved
                };
                self.set_zn(res, byte);
                self.write_selected(reg_num, res);
                self.finish(pins);
                Ok(())
            },
            AddressingMode::Absolute => match self.cycle {
                1..=3 => {
                    self.mode_absolute(pins, byte, Some(Continuation::Data));
                    Ok(())
                },
                4 => {
                    self.flags.set(Flag::C, top_bit(pins.data, byte));
                    let moved = move_left(pins.data, rotate);
                    pins.data = if byte {
                        moved % 256
                    } else {
                        moved
                    };
                    self.set_zn(pins.data, byte);
                    pins.address = self.temp_addr;
                    pins.rw = ReadWrite::Write;
                    Ok(())
                },
                5 => {
                    self.finish(pins);
                    Ok(())
                },
                _ => Err(Fault::BadCycle),
            },
            _ => Err(Fault::BadMode),
        }
    }

    /// Shifts a word one bit to the left.
    pub fn SBL(&mut self, pins: &mut Pins, mode: AddressingMode) -> (result: Result<(), Fault>)
        ensures
            step_taken(
                old(self)@.shift_left(old(pins)@, mode, false, false),
                result,
                (old(self)@, old(pins)@),
                (final(self)@, final(pins)@),
            ),
            final(self).same_wiring(old(self)),
    {
        self.shift(pins, mode, false, false)
    }

    /// Shifts a byte one bit to the left.
    pub fn SBLB(&mut self, pins: &mut Pins, mode: AddressingMode) -> (result: Result<(), Fault>)
        ensures
            step_taken(
                old(self)@.shift_left(old(pins)@, mode, true, false),
                result,
                (old(self)@, old(pins)@),
                (final(self)@, final(pins)@),
            ),
            final(self).same_wiring(old(self)),
    {
        self.shift(pins, mode, true, false)
    }

    /// Rotates a word one bit to the left.
    pub fn ROL(&mut self, pins: &mut Pins, mode: AddressingMode) -> (result: Result<(), Fault>)
        ensures
            step_taken(
                old(self)@.shift_left(old(pins)@, mode, false, true),
                result,
                (old(self)@, old(pins)@),
                (final(self)@, final(pins)@),
            ),
            final(self).same_wiring(old(self)),
    {
        self.shift(pins, mode, false, true)
    }
}

} // verus!
