//! What every instruction shares: the three cycles that put an absolute
//! address together, the request for an immediate operand, and the end of an
//! instruction.

use vstd::prelude::*;
use crate::bits::low;
use crate::cpu::{CPU, CPUState, Continuation, Fault, Flag, InterruptStatus, Machine};
use crate::cpu::model::signed_word;
use crate::device::{AddressMappedDevice, IOMappedDevice};
use crate::pins::{Pins, PinsModel, ReadWrite};

verus! {

/// A word taken as a signed number.
fn to_signed(value: u16) -> (r: i16)
    ensures
        r == signed_word(value),
{
    if value >= 0x8000 {
        (value as i32 - 0x1_0000) as i16
    } else {
        value as i16
    }
}

impl<D: AddressMappedDevice, P: IOMappedDevice> CPU<D, P> {
    /// Ends an instruction or a state's work.
    pub(crate) fn finish(&mut self, pins: &mut Pins)
        ensures
            (final(self)@, final(pins)@) == old(self)@.finish(old(pins)@),
            final(self).same_wiring(old(self)),
    {
        self.cycle = 0;
        pins.bus_enable = false;
        if self.int_status != InterruptStatus::Idle {
            self.state = CPUState::Interrupt;
            return ;
        }
        if self.state == CPUState::Halt {
            return ;
        }
        self.state = CPUState::Fetch;
    }

    /// Puts an absolute address together, one cycle at a time. The resolver
    /// has three cycles; an instruction calls it in these alone.
    pub(crate) fn mode_absolute(
        &mut self,
        pins: &mut Pins,
        byte_instruction: bool,
        func: Option<Continuation>,
    )
        requires
            1 <= old(self)@.cycle <= 3,
        ensures
            old(self)@.mode_absolute(old(pins)@, byte_instruction, func) == Ok::<
                (Machine, PinsModel),
                Fault,
            >((final(self)@, final(pins)@)),
            final(self).same_wiring(old(self)),
    {
        match self.cycle {
            1 => {
                self.word = false;
                pins.address = self.pc;
                pins.rw = ReadWrite::Read;
            },
            2 => {
                self.temp_addr.set_extended_value(low(pins.data));
                self.pc.increment();
                pins.address = self.pc;
                pins.rw = ReadWrite::Read;
                self.word = true;
            },
            _ => {
                let mut address = self.temp_addr;
                address.set_seg_value(pins.data);
                if self.instruction.metadata.reg_offset() > 0 {
                    let val = self.read_selected(self.instruction.metadata.reg1());
                    address.offset_word(to_signed(val));
                } else {
                    address.offset(self.instruction.metadata.displacement());
                }
                self.temp_addr = address;
                self.pc.increment_amount(2);
                match func {
                    None => {},
                    Some(Continuation::Data) => {
                        self.mode_absolute_data(pins);
                    },
                    Some(Continuation::Jump) => {
                        self.mode_absolute_jmp(pins);
                    },
                    Some(Continuation::Store) => {
                        self.mode_absolute_st(pins);
                    },
                    Some(Continuation::Call) => {
                        self.mode_absolute_jsr(pins);
                    },
                }
                self.word = !byte_instruction;
            },
        }
    }

    /// Asks for the operand at the address.
    fn mode_absolute_data(&mut self, pins: &mut Pins)
        ensures
            (final(self)@, final(pins)@) == old(self)@.continue_with(
                old(pins)@,
                Some(Continuation::Data),
            ),
            final(self).same_wiring(old(self)),
    {
        pins.address = self.temp_addr;
        pins.rw = ReadWrite::Read;
    }

    /// Goes on at the address.
    fn mode_absolute_jmp(&mut self, pins: &mut Pins)
        ensures
            (final(self)@, final(pins)@) == old(self)@.continue_with(
                old(pins)@,
                Some(Continuation::Jump),
            ),
            final(self).same_wiring(old(self)),
    {
        self.pc = self.temp_addr;
        self.finish(pins);
    }

    /// Asks for the first register to be written at the address.
    fn mode_absolute_st(&mut self, pins: &mut Pins)
        ensures
            (final(self)@, final(pins)@) == old(self)@.continue_with(
                old(pins)@,
                Some(Continuation::Store),
            ),
            final(self).same_wiring(old(self)),
    {
        pins.address = self.temp_addr;
        pins.data = self.read_selected(self.instruction.metadata.reg0());
        pins.rw = ReadWrite::Write;
    }

    /// Begins a call: asks for the status word to be written at the stack
    /// pointer; the caller sets the bus width to a byte, so that its low byte
    /// is what goes there.
    fn mode_absolute_jsr(&mut self, pins: &mut Pins)
        ensures
            (final(self)@, final(pins)@) == old(self)@.continue_with(
                old(pins)@,
                Some(Continuation::Call),
            ),
            final(self).same_wiring(old(self)),
    {
        pins.address = self.sp.to_address();
        pins.data = self.flags.bits();
        pins.rw = ReadWrite::Write;
    }

    /// Goes on at the address where the flag is as wanted, and one byte on
    /// where it is not.
    pub(crate) fn mode_absolute_jmp_cond(&mut self, pins: &mut Pins, flag: Flag, contains: bool)
        ensures
            (final(self)@, final(pins)@) == old(self)@.jump_cond(old(pins)@, flag, contains),
            final(self).same_wiring(old(self)),
    {
        if self.flags.contains(flag) == contains {
            self.pc = self.temp_addr;
        } else {
            self.pc.increment();
        }
        self.word = false;
        self.finish(pins);
    }

    /// Asks for the operand behind the instruction.
    pub(crate) fn mode_immediate(&mut self, pins: &mut Pins, byte_instruction: bool)
        ensures
            (final(self)@, final(pins)@) == old(self)@.mode_immediate(old(pins)@, byte_instruction),
            final(self).same_wiring(old(self)),
    {
        pins.address = self.pc;
        pins.rw = ReadWrite::Read;
        self.word = !byte_instruction;
    }
}

} // verus!
