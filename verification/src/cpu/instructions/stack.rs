//! PSH, PSHB and POP: move words and bytes between the registers and the
//! stack. The stack grows towards higher addresses.

use vstd::prelude::*;
use crate::device::{AddressMappedDevice, IOMappedDevice};
use crate::cpu::{AddressingMode, CPU, Fault, Machine, Pins, PinsModel, ReadWrite, Step, step_taken};

verus! {

impl Machine {
    /// One cycle of a push. Immediate: ask for the operand; ask for it to be
    /// written at the stack pointer; move the stack pointer and the program
    /// counter over it. Register: ask for the first register to be written
    /// at the stack pointer, a word or a byte wide; move the stack pointer.
    #[verifier::opaque]
    pub open spec fn push(self, pins: PinsModel, mode: AddressingMode, byte: bool) -> Step {
        let width: int = if byte {
            1
        } else {
            2
        };
        match mode {
            AddressingMode::Immediate => if self.cycle == 1 {
                Ok(self.mode_immediate(pins, byte))
            } else if self.cycle == 2 {
                Ok((self, pins.write_back_at(self.sp_address())))
            } else if self.cycle == 3 {
                let m = self.move_sp(width).advance(width);
                if byte {
                    Ok(m.finish(pins))
                } else {
                    Ok((Machine { word: false, ..m }).finish(pins))
                }
            } else {
                Err(Fault::BadCycle)
            },
            AddressingMode::Register => if self.cycle == 1 {
                Ok(
                    (
                        Machine { word: !byte, ..self },
                        pins.write_at(self.sp_address(), self.read(self.reg0())),
                    ),
                )
            } else if self.cycle == 2 {
                Ok(self.move_sp(width).finish(pins))
            } else {
                Err(Fault::BadCycle)
            },
            _ => Err(Fault::BadMode),
        }
    }

    /// One cycle of a pop: move the stack pointer one byte down and ask for a
    /// byte there; put what was read into the first register.
    #[verifier::opaque]
    pub open spec fn pop(self, pins: PinsModel) -> Step {
        if self.cycle == 1 {
            let m = Machine { word: false, ..self.move_sp(-1) };
            Ok((m, pins.read_at(m.sp_address())))
        } else if self.cycle == 2 {
            Ok(self.write(self.reg0(), pins.data).finish(pins))
        } else {
            Err(Fault::BadCycle)
        }
    }
}

impl<D: AddressMappedDevice, P: IOMappedDevice> CPU<D, P> {
    fn push(&mut self, pins: &mut Pins, mode: AddressingMode, byte: bool) -> (result: Result<
        (),
        Fault,
    >)
        ensures
            step_taken(
                old(self)@.push(old(pins)@, mode, byte),
                result,
                (old(self)@, old(pins)@),
                (final(self)@, final(pins)@),
            ),
            final(self).same_wiring(old(self)),
    {
        proof {
            reveal(Machine::push);
        }
        match mode {
            AddressingMode::Immediate => match self.cycle {
                1 => {
                    self.mode_immediate(pins, byte);
                    Ok(())
                },
                2 => {
                    pins.address = self.sp.to_address();
                    pins.rw = ReadWrite::Write;
                    Ok(())
                },
                3 => {
                    if byte {
                        self.sp.increment();
                        self.pc.increment();
                    } else {
                        self.sp.increment_amount(2);
                        self.pc.increment_amount(2);
                        self.word = false;
                    }
                    self.finish(pins);
                    Ok(())
                },
                _ => Err(Fault::BadCycle),
            },
            AddressingMode::Register => match self.cycle {
                1 => {
                    pins.address = self.sp.to_address();
                    pins.data = self.read_selected(self.instruction.metadata.reg0());
                    pins.rw = ReadWrite::Write;
                    self.word = !byte;
                    Ok(())
                },
                2 => {
                    if byte {
                        self.sp.increment();
                    } else {
                        self.sp.increment_amount(2);
                    }
                    self.finish(pins);
                    Ok(())
                },
                _ => Err(Fault::BadCycle),
            },
            _ => Err(Fault::BadMode),
        }
    }

    /// Pushes a word.
    pub fn PSH(&mut self, pins: &mut Pins, mode: AddressingMode) -> (result: Result<(), Fault>)
        ensures
            step_taken(
                old(self)@.push(old(pins)@, mode, false),
                result,
                (old(self)@, old(pins)@),
                (final(self)@, final(pins)@),
            ),
            final(self).same_wiring(old(self)),
    {
        self.push(pins, mode, false)
    }

    /// Pushes a byte.
    pub fn PSHB(&mut self, pins: &mut Pins, mode: AddressingMode) -> (result: Result<(), Fault>)
        ensures
            step_taken(
                old(self)@.push(old(pins)@, mode, true),
                result,
                (old(self)@, old(pins)@),
                (final(self)@, final(pins)@),
            ),
            final(self).same_wiring(old(self)),
    {
        self.push(pins, mode, true)
    }

    /// Pops into the first register. The addressing mode plays no part.
    pub fn POP(&mut self, pins: &mut Pins, _mode: AddressingMode) -> (result: Result<(), Fault>)
        ensures
            step_taken(
                old(self)@.pop(old(pins)@),
                result,
                (old(self)@, old(pins)@),
                (final(self)@, final(pins)@),
            ),
            final(self).same_wiring(old(self)),
    {
        proof {
            reveal(Machine::pop);
        }
        match self.cycle {
            1 => {
                self.sp.decrement();
                pins.address = self.sp.to_address();
                pins.rw = ReadWrite::Read;
                self.word = false;
                Ok(())
            },
            2 => {
                self.write_selected(self.instruction.metadata.reg0(), pins.data);
                self.finish(pins);
                Ok(())
            },
            _ => Err(Fault::BadCycle),
        }
    }
}

} // verus!
