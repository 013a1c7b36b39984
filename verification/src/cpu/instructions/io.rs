//! IN and OUT: move a byte between the first register and a port of the
//! input/output bus.

use vstd::prelude::*;
use crate::device::{AddressMappedDevice, IOMappedDevice};
use crate::bits::{low, low_byte};
use crate::cpu::{AddressingMode, CPU, Fault, Machine, Pins, PinsModel, ReadWrite, Step, step_taken};

verus! {

impl Machine {
    /// One cycle of an input: ask for the port number, a byte after the
    /// instruction; step over it and ask the port for a byte; put the byte
    /// into the first register and release the port.
    #[verifier::opaque]
    pub open spec fn input(self, pins: PinsModel) -> Step {
        if self.cycle == 1 {
            Ok((Machine { word: false, ..self }, pins.read_at(self.pc)))
        } else if self.cycle == 2 {
            Ok(
                (
                    self.advance(1),
                    PinsModel {
                        io_address: low_byte(pins.data),
                        io_rw: ReadWrite::Read,
                        io_enable: true,
                        ..pins
                    },
                ),
            )
        } else if self.cycle == 3 {
            Ok(
                self.write(self.reg0(), pins.io_data as u16).finish(
                    PinsModel { io_enable: false, ..pins },
                ),
            )
        } else {
            Err(Fault::BadCycle)
        }
    }

    /// One cycle of an output: ask for the port number, a byte after the
    /// instruction; step over it and hand the port the low byte of the first
    /// register; release the port.
    #[verifier::opaque]
    pub open spec fn output(self, pins: PinsModel) -> Step {
        if self.cycle == 1 {
            Ok((Machine { word: false, ..self }, pins.read_at(self.pc)))
        } else if self.cycle == 2 {
            Ok(
                (
                    self.advance(1),
                    PinsModel {
                        io_address: low_byte(pins.data),
                        io_data: low_byte(self.read(self.reg0())),
                        io_rw: ReadWrite::Write,
                        io_enable: true,
                        ..pins
                    },
                ),
            )
        } else if self.cycle == 3 {
            Ok(self.finish(PinsModel { io_enable: false, ..pins }))
        } else {
            Err(Fault::BadCycle)
        }
    }
}

impl<D: AddressMappedDevice, P: IOMappedDevice> CPU<D, P> {
    /// Reads a byte from a port into the first register. The addressing mode
    /// plays no part.
    pub fn IN(&mut self, pins: &mut Pins, _mode: AddressingMode) -> (result: Result<(), Fault>)
        ensures
            step_taken(
                old(self)@.input(old(pins)@),
                result,
                (old(self)@, old(pins)@),
                (final(self)@, final(pins)@),
            ),
            final(self).same_wiring(old(self)),
    {
        proof {
            reveal(Machine::input);
        }
        match self.cycle {
            1 => {
                pins.address = self.pc;
                pins.rw = ReadWrite::Read;
                self.word = false;
                Ok(())
            },
            2 => {
                self.pc.increment();
                pins.io_address = low(pins.data);
                pins.io_rw = ReadWrite::Read;
                pins.io_enable = true;
                Ok(())
            },
            3 => {
                self.write_selected(self.instruction.metadata.reg0(), pins.io_data as u16);
                pins.io_enable = false;
                self.finish(pins);
                Ok(())
            },
            _ => Err(Fault::BadCycle),
        }
    }

    /// Writes the low byte of the first register to a port. The addressing
    /// mode plays no part.
    pub fn OUT(&mut self, pins: &mut Pins, _mode: AddressingMode) -> (result: Result<(), Fault>)
        ensures
            step_taken(
                old(self)@.output(old(pins)@),
                result,
                (old(self)@, old(pins)@),
                (final(self)@, final(pins)@),
            ),
            final(self).same_wiring(old(self)),
    {
        proof {
            reveal(Machine::output);
        }
        match self.cycle {
            1 => {
                pins.address = self.pc;
                pins.rw = ReadWrite::Read;
                self.word = false;
                Ok(())
            },
            2 => {
                self.pc.increment();
                pins.io_address = low(pins.data);
                pins.io_data = low(self.read_selected(self.instruction.metadata.reg0()));
                pins.io_rw = ReadWrite::Write;
                pins.io_enable = true;
                Ok(())
            },
            3 => {
                pins.io_enable = false;
                self.finish(pins);
                Ok(())
            },
            _ => Err(Fault::BadCycle),
        }
    }
}

} // verus!
