//! JMP, the conditional branches, JSR and RTS.

use vstd::prelude::*;
use crate::device::{AddressMappedDevice, IOMappedDevice};
use crate::address::{bank_of, segment_of, bank_address};
use crate::bits::{low, low_byte};
use crate::cpu::{
    AddressingMode, CPU, Continuation, Fault, Flag, Flags, Machine, Pins, PinsModel, ReadWrite,
    Step, step_taken,
};

verus! {

impl Machine {
    /// One cycle of a jump: put the address together and go on there.
    #[verifier::opaque]
    pub open spec fn jump(self, pins: PinsModel) -> Step {
        self.mode_absolute(pins, false, Some(Continuation::Jump))
    }

    /// One cycle of a conditional branch: put the address together; in the
    /// third cycle go on there where `flag` is as `wanted`, and one byte on
    /// where it is not.
    #[verifier::opaque]
    pub open spec fn branch(self, pins: PinsModel, flag: Flag, wanted: bool) -> Step {
        if self.cycle == 1 || self.cycle == 2 {
            self.mode_absolute(pins, false, None)
        } else if self.cycle == 3 {
            match self.mode_absolute(pins, false, None) {
                Ok((m, p)) => Ok(m.jump_cond(p, flag, wanted)),
                Err(fault) => Err(fault),
            }
        } else {
            Err(Fault::BadCycle)
        }
    }

    /// One cycle of a call. The address is put together, and the low byte of
    /// the status word goes to the stack; behind it goes the bank of the
    /// return address, and behind that the offset of the return address as a
    /// word. Then the stack pointer stands four bytes up, and the engine goes
    /// on at the address.
    #[verifier::opaque]
    pub open spec fn call(self, pins: PinsModel) -> Step {
        if 1 <= self.cycle <= 3 {
            self.mode_absolute(pins, true, Some(Continuation::Call))
        } else if self.cycle == 4 {
            let m = Machine { word: false, ..self.move_sp(1) };
            Ok((m, pins.write_at(m.sp_address(), bank_of(self.pc) as u16)))
        } else if self.cycle == 5 {
            let m = Machine { word: true, ..self.move_sp(1) };
            Ok((m, pins.write_at(m.sp_address(), segment_of(self.pc) as u16)))
        } else if self.cycle == 6 {
            Ok((Machine { pc: self.temp_addr, ..self.move_sp(2) }).finish(pins))
        } else {
            Err(Fault::BadCycle)
        }
    }

    /// One cycle of a return. Four bytes come off the stack, each after the
    /// stack pointer moved one byte down: the low byte, the high byte and the
    /// bank of the return address, and the status byte. Then the engine goes
    /// on at the return address.
    #[verifier::opaque]
    pub open spec fn ret(self, pins: PinsModel) -> Step {
        if self.cycle == 1 {
            let m = Machine { word: false, ..self.move_sp(-1) };
            Ok((m, pins.read_at(m.sp_address())))
        } else if self.cycle == 2 {
            let m = Machine {
                temp_addr: (self.temp_addr / 256) * 256 + low_byte(pins.data),
                ..self.move_sp(-1)
            };
            Ok((m, pins.read_at(m.sp_address())))
        } else if self.cycle == 3 {
            let m = Machine {
                temp_addr: bank_address(
                    bank_of(self.temp_addr),
                    low_byte(pins.data) as int * 256 + self.temp_addr % 256,
                ),
                ..self.move_sp(-1)
            };
            Ok((m, pins.read_at(m.sp_address())))
        } else if self.cycle == 4 {
            let m = Machine {
                temp_addr: bank_address(low_byte(pins.data) as int, segment_of(self.temp_addr)),
                ..self.move_sp(-1)
            };
            Ok((m, pins.read_at(m.sp_address())))
        } else if self.cycle == 5 {
            Ok((Machine { flags: pins.data, pc: self.temp_addr, ..self }).finish(pins))
        } else {
            Err(Fault::BadCycle)
        }
    }
}

impl<D: AddressMappedDevice, P: IOMappedDevice> CPU<D, P> {
    pub(crate) fn jump_if_flag(&mut self, pins: &mut Pins, flag: Flag) -> (result: Result<(), Fault>)
        ensures
            step_taken(
                old(self)@.branch(old(pins)@, flag, true),
                result,
                (old(self)@, old(pins)@),
                (final(self)@, final(pins)@),
            ),
            final(self).same_wiring(old(self)),
    {
        self.branch(pins, flag, true)
    }

    pub(crate) fn jump_not_flag(&mut self, pins: &mut Pins, flag: Flag) -> (result: Result<(), Fault>)
        ensures
            step_taken(
                old(self)@.branch(old(pins)@, flag, false),
                result,
                (old(self)@, old(pins)@),
                (final(self)@, final(pins)@),
            ),
            final(self).same_wiring(old(self)),
    {
        self.branch(pins, flag, false)
    }

    fn branch(&mut self, pins: &mut Pins, flag: Flag, wanted: bool) -> (result: Result<(), Fault>)
        ensures
            step_taken(
                old(self)@.branch(old(pins)@, flag, wanted),
                result,
                (old(self)@, old(pins)@),
                (final(self)@, final(pins)@),
            ),
            final(self).same_wiring(old(self)),
    {
        proof {
            reveal(Machine::branch);
        }
        match self.cycle {
            1..=2 => {
                self.mode_absolute(pins, false, None);
                Ok(())
            },
            3 => {
                self.mode_absolute(pins, false, None);
                self.mode_absolute_jmp_cond(pins, flag, wanted);
                Ok(())
            },
            _ => Err(Fault::BadCycle),
        }
    }

    /// Jumps.
    pub fn JMP(&mut self, pins: &mut Pins, _mode: AddressingMode) -> (result: Result<(), Fault>)
        ensures
            step_taken(
                old(self)@.jump(old(pins)@),
                result,
                (old(self)@, old(pins)@),
                (final(self)@, final(pins)@),
            ),
            final(self).same_wiring(old(self)),
    {
        proof {
            reveal(Machine::jump);
        }
        match self.cycle {
            1..=3 => {
                self.mode_absolute(pins, false, Some(Continuation::Jump));
                Ok(())
            },
            _ => Err(Fault::BadCycle),
        }
    }

    /// Branches where Zero is set.
    pub fn BIZ(&mut self, pins: &mut Pins, _mode: AddressingMode) -> (result: Result<(), Fault>)
        ensures
            step_taken(
                old(self)@.branch(old(pins)@, Flag::Z, true),
                result,
                (old(self)@, old(pins)@),
                (final(self)@, final(pins)@),
            ),
            final(self).same_wiring(old(self)),
    {
        self.jump_if_flag(pins, Flag::Z)
    }

    /// Branches where Negative is set.
    pub fn BIN(&mut self, pins: &mut Pins, _mode: AddressingMode) -> (result: Result<(), Fault>)
        ensures
            step_taken(
                old(self)@.branch(old(pins)@, Flag::N, true),
                result,
                (old(self)@, old(pins)@),
                (final(self)@, final(pins)@),
            ),
            final(self).same_wiring(old(self)),
    {
        self.jump_if_flag(pins, Flag::N)
    }

    /// Branches where Carry is set.
    pub fn BIC(&mut self, pins: &mut Pins, _mode: AddressingMode) -> (result: Result<(), Fault>)
        ensures
            step_taken(
                old(self)@.branch(old(pins)@, Flag::C, true),
                result,
                (old(self)@, old(pins)@),
                (final(self)@, final(pins)@),
            ),
            final(self).same_wiring(old(self)),
    {
        self.jump_if_flag(pins, Flag::C)
    }

    /// Branches where Overflow is set.
    pub fn BIO(&mut self, pins: &mut Pins, _mode: AddressingMode) -> (result: Result<(), Fault>)
        ensures
            step_taken(
                old(self)@.branch(old(pins)@, Flag::O, true),
                result,
                (old(self)@, old(pins)@),
                (final(self)@, final(pins)@),
            ),
            final(self).same_wiring(old(self)),
    {
        self.jump_if_flag(pins, Flag::O)
    }

    /// Branches where Less is set.
    pub fn BIL(&mut self, pins: &mut Pins, _mode: AddressingMode) -> (result: Result<(), Fault>)
        ensures
            step_taken(
                old(self)@.branch(old(pins)@, Flag::L, true),
                result,
                (old(self)@, old(pins)@),
                (final(self)@, final(pins)@),
            ),
            final(self).same_wiring(old(self)),
    {
        self.jump_if_flag(pins, Flag::L)
    }

    /// Branches where Greater is set.
    pub fn BIG(&mut self, pins: &mut Pins, _mode: AddressingMode) -> (result: Result<(), Fault>)
        ensures
            step_taken(
                old(self)@.branch(old(pins)@, Flag::G, true),
                result,
                (old(self)@, old(pins)@),
                (final(self)@, final(pins)@),
            ),
            final(self).same_wiring(old(self)),
    {
        self.jump_if_flag(pins, Flag::G)
    }

    /// Branches where Zero is clear.
    pub fn BNZ(&mut self, pins: &mut Pins, _mode: AddressingMode) -> (result: Result<(), Fault>)
        ensures
            step_taken(
                old(self)@.branch(old(pins)@, Flag::Z, false),
                result,
                (old(self)@, old(pins)@),
                (final(self)@, final(pins)@),
            ),
            final(self).same_wiring(old(self)),
    {
        self.jump_not_flag(pins, Flag::Z)
    }

    /// Branches where Negative is clear.
    pub fn BNN(&mut self, pins: &mut Pins, _mode: AddressingMode) -> (result: Result<(), Fault>)
        ensures
            step_taken(
                old(self)@.branch(old(pins)@, Flag::N, false),
                result,
                (old(self)@, old(pins)@),
                (final(self)@, final(pins)@),
            ),
            final(self).same_wiring(old(self)),
    {
        self.jump_not_flag(pins, Flag::N)
    }

    /// Branches where Carry is clear.
    pub fn BNC(&mut self, pins: &mut Pins, _mode: AddressingMode) -> (result: Result<(), Fault>)
        ensures
            step_taken(
                old(self)@.branch(old(pins)@, Flag::C, false),
                result,
                (old(self)@, old(pins)@),
                (final(self)@, final(pins)@),
            ),
            final(self).same_wiring(old(self)),
    {
        self.jump_not_flag(pins, Flag::C)
    }

    /// Branches where Overflow is clear.
    pub fn BNO(&mut self, pins: &mut Pins, _mode: AddressingMode) -> (result: Result<(), Fault>)
        ensures
            step_taken(
                old(self)@.branch(old(pins)@, Flag::O, false),
                result,
                (old(self)@, old(pins)@),
                (final(self)@, final(pins)@),
            ),
            final(self).same_wiring(old(self)),
    {
        self.jump_not_flag(pins, Flag::O)
    }

    /// Branches where Less is clear.
    pub fn BNL(&mut self, pins: &mut Pins, _mode: AddressingMode) -> (result: Result<(), Fault>)
        ensures
            step_taken(
                old(self)@.branch(old(pins)@, Flag::L, false),
                result,
                (old(self)@, old(pins)@),
                (final(self)@, final(pins)@),
            ),
            final(self).same_wiring(old(self)),
    {
        self.jump_not_flag(pins, Flag::L)
    }

    /// Branches where Greater is clear.
    pub fn BNG(&mut self, pins: &mut Pins, _mode: AddressingMode) -> (result: Result<(), Fault>)
        ensures
            step_taken(
                old(self)@.branch(old(pins)@, Flag::G, false),
                result,
                (old(self)@, old(pins)@),
                (final(self)@, final(pins)@),
            ),
            final(self).same_wiring(old(self)),
    {
        self.jump_not_flag(pins, Flag::G)
    }

    /// Calls a routine.
    pub fn JSR(&mut self, pins: &mut Pins, _mode: AddressingMode) -> (result: Result<(), Fault>)
        ensures
            step_taken(
                old(self)@.call(old(pins)@),
                result,
                (old(self)@, old(pins)@),
                (final(self)@, final(pins)@),
            ),
            final(self).same_wiring(old(self)),
    {
        proof {
            reveal(Machine::call);
        }
        match self.cycle {
            1..=3 => {
                    self.mode_absolute(pins, true, Some(Continuation::Call));
                    Ok(())
                },
            4 => {
                self.sp.increment();
                pins.address = self.sp.to_address();
                pins.data = self.pc.get_extended_value() as u16;
                pins.rw = ReadWrite::Write;
                self.word = false;
                Ok(())
            },
            5 => {
                self.sp.increment();
                pins.address = self.sp.to_address();
                pins.data = self.pc.get_16bit_value();
                pins.rw = ReadWrite::Write;
                self.word = true;
                Ok(())
            },
            6 => {
                self.sp.increment_amount(2);
                self.pc = self.temp_addr;
                self.finish(pins);
                Ok(())
            },
            _ => Err(Fault::BadCycle),
        }
    }

    /// Returns from a routine.
    pub fn RTS(&mut self, pins: &mut Pins, _mode: AddressingMode) -> (result: Result<(), Fault>)
        ensures
            step_taken(
                old(self)@.ret(old(pins)@),
                result,
                (old(self)@, old(pins)@),
                (final(self)@, final(pins)@),
            ),
            final(self).same_wiring(old(self)),
    {
        proof {
            reveal(Machine::ret);
        }
        match self.cycle {
            1 => {
                self.sp.decrement();
                pins.address = self.sp.to_address();
                pins.rw = ReadWrite::Read;
                self.word = false;
                Ok(())
            },
            2 => {
                self.sp.decrement();
                self.temp_addr.set_low_byte(low(pins.data));
                pins.address = self.sp.to_address();
                pins.rw = ReadWrite::Read;
                Ok(())
            },
            3 => {
                self.sp.decrement();
                self.temp_addr.set_hi_byte(low(pins.data));
                pins.address = self.sp.to_address();
                pins.rw = ReadWrite::Read;
                Ok(())
            },
            4 => {
                self.sp.decrement();
                self.temp_addr.set_extended_value(low(pins.data));
                pins.address = self.sp.to_address();
                pins.rw = ReadWrite::Read;
                Ok(())
            },
            5 => {
                self.flags = Flags::from_bits(pins.data);
                self.pc = self.temp_addr;
                self.finish(pins);
                Ok(())
            },
            _ => Err(Fault::BadCycle),
        }
    }
}

} // verus!
