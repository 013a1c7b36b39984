//! The cycle: the interrupt lines are sampled, the present state does one
//! cycle of its work, and the cycle count goes up.

use vstd::prelude::*;
use crate::bits::low;
use crate::address::ExtendedAddress;
use crate::cpu::{CPU, CPUState, Fault, InterruptStatus, Machine, Status, Step, step_taken};
use crate::cpu::model::{NMI_VECTOR, RESET_VECTOR};
use crate::device::{AddressMappedDevice, IOMappedDevice};
use crate::info::Decoded;
use crate::pins::{Pins, PinsModel, ReadWrite};

verus! {

/// What the opcode table `table` says of `opcode`.
pub open spec fn table_entry(table: Seq<Decoded>, opcode: u8) -> Decoded {
    if opcode < table.len() {
        table[opcode as int]
    } else {
        Err(Fault::UnknownOpcode)
    }
}

/// What a cycle brings: the state and the pins after it and what the caller is
/// told, or the fault that stopped it.
pub type Cycle = Result<(Machine, PinsModel, Status), Fault>;

impl Machine {
    /// One cycle of the engine. The interrupt lines are sampled first. A
    /// halted engine stands still, and tells the caller to stop where it was
    /// made to. Any other state does one cycle of its work, and the cycle
    /// count goes one up.
    pub open spec fn cycle(self, pins: PinsModel, table: Seq<Decoded>, leave_on_halt: bool)
        -> Cycle {
        let latched = self.latch(pins);
        if latched.state == CPUState::Halt {
            Ok(
                (
                    latched,
                    pins,
                    if leave_on_halt {
                        Status::Exit
                    } else {
                        Status::Running
                    },
                ),
            )
        } else {
            match latched.state_step(pins, table) {
                Ok((m, p)) => Ok((m.tick(), p, Status::Running)),
                Err(fault) => Err(fault),
            }
        }
    }

    /// One cycle of the work of the present state.
    pub open spec fn state_step(self, pins: PinsModel, table: Seq<Decoded>) -> Step {
        match self.state {
            CPUState::Reset => self.reset_step(pins),
            CPUState::Fetch => self.fetch_step(pins),
            CPUState::Execute => self.execute_step(pins, table_entry(table, self.opcode)),
            CPUState::Interrupt => self.interrupt_step(pins),
            CPUState::Halt => Ok((self, pins)),
        }
    }
}

/// Whether a cycle came out as the machine says: the state and the pins are
/// those that it gives, or, on a fault, those from before the cycle.
pub open spec fn cycle_taken(
    expected: Cycle,
    result: Result<Status, Fault>,
    before: (Machine, PinsModel),
    after: (Machine, PinsModel),
) -> bool {
    match expected {
        Ok((m, p, status)) => result == Ok::<Status, Fault>(status) && after == (m, p),
        Err(fault) => result == Err::<Status, Fault>(fault) && after == before,
    }
}

impl<D: AddressMappedDevice, P: IOMappedDevice> CPU<D, P> {
    /// Whether the engine can do its next cycle: it is not about to execute,
    /// or the opcode table knows the opcode that it executes. An opcode that
    /// the table does not know, or whose entry it cannot read, is an error of
    /// the configuration, and stops the caller.
    pub fn knows_opcode(&self) -> (known: bool)
        ensures
            known == (self@.state == CPUState::Execute ==> table_entry(self.table(), self@.opcode)
                is Ok),
    {
        if self.state != CPUState::Execute {
            return true;
        }
        let opcode = self.instruction.opcode as usize;
        opcode < self.table.len() && self.table[opcode].is_ok()
    }

    /// One cycle of the engine: what [`Machine::cycle`] says. It is for an
    /// engine that knows its opcode (see [`CPU::knows_opcode`]). A fault
    /// leaves the engine and the pins as they were.
    pub fn cycle(&mut self, pins: &mut Pins) -> (result: Result<Status, Fault>)
        requires
            old(self)@.state == CPUState::Execute ==> table_entry(
                old(self).table(),
                old(self)@.opcode,
            ) is Ok,
        ensures
            cycle_taken(
                old(self)@.cycle(old(pins)@, old(self).table(), old(self).options().leaves_on_halt()),
                result,
                (old(self)@, old(pins)@),
                (final(self)@, final(pins)@),
            ),
            final(self).same_wiring(old(self)),
    {
        let waiting = self.int_status;
        if self.int_status == InterruptStatus::Idle {
            if pins.irq.req {
                self.int_status = InterruptStatus::Normal;
            } else if pins.irq.nmi {
                self.int_status = InterruptStatus::NonMaskable;
            }
        }
        let step = match self.state {
            CPUState::Reset => self.reset_handler(pins),
            CPUState::Fetch => self.fetch_handler(pins),
            CPUState::Execute => self.execute_handler(pins),
            CPUState::Interrupt => self.interrupt_handler(pins),
            CPUState::Halt => {
                return Ok(
                    if self.options.exit_on_hlt() {
                        Status::Exit
                    } else {
                        Status::Running
                    },
                );
            },
        };
        match step {
            Ok(()) => {
                if self.cycle < 255 {
                    self.cycle += 1;
                }
                Ok(Status::Running)
            },
            Err(fault) => {
                self.int_status = waiting;
                Err(fault)
            },
        }
    }

    /// One cycle of the reset.
    fn reset_handler(&mut self, pins: &mut Pins) -> (result: Result<(), Fault>)
        ensures
            step_taken(
                old(self)@.reset_step(old(pins)@),
                result,
                (old(self)@, old(pins)@),
                (final(self)@, final(pins)@),
            ),
            final(self).same_wiring(old(self)),
    {
        match self.cycle {
            1 => {
                self.word = false;
                pins.address.set_16bit_value(RESET_VECTOR);
                pins.rw = ReadWrite::Read;
                Ok(())
            },
            2 => {
                self.temp_addr.set_extended_value(low(pins.data));
                self.word = true;
                pins.address.set_16bit_value(RESET_VECTOR + 1);
                pins.rw = ReadWrite::Read;
                Ok(())
            },
            3 => {
                self.temp_addr.set_seg_value(pins.data);
                self.pc = self.temp_addr;
                self.finish(pins);
                Ok(())
            },
            _ => Err(Fault::BadCycle),
        }
    }

    /// One cycle of a fetch.
    fn fetch_handler(&mut self, pins: &mut Pins) -> (result: Result<(), Fault>)
        ensures
            step_taken(
                old(self)@.fetch_step(old(pins)@),
                result,
                (old(self)@, old(pins)@),
                (final(self)@, final(pins)@),
            ),
            final(self).same_wiring(old(self)),
    {
        match self.cycle {
            1 => {
                self.word = false;
                pins.address = self.pc;
                pins.rw = ReadWrite::Read;
                pins.bus_enable = true;
                Ok(())
            },
            2 => {
                self.instruction.opcode = low(pins.data);
                self.pc.increment();
                self.word = true;
                pins.address = self.pc;
                pins.rw = ReadWrite::Read;
                Ok(())
            },
            3 => {
                self.instruction.metadata.set_data(pins.data);
                self.pc.increment_amount(2);
                self.finish(pins);
                self.state = CPUState::Execute;
                Ok(())
            },
            _ => Err(Fault::BadCycle),
        }
    }

    /// One cycle of the instruction that was fetched. On a fault the pins are
    /// put back as they were.
    fn execute_handler(&mut self, pins: &mut Pins) -> (result: Result<(), Fault>)
        requires
            table_entry(old(self).table(), old(self)@.opcode) is Ok,
        ensures
            step_taken(
                old(self)@.execute_step(old(pins)@, table_entry(old(self).table(), old(self)@.opcode)),
                result,
                (old(self)@, old(pins)@),
                (final(self)@, final(pins)@),
            ),
            final(self).same_wiring(old(self)),
    {
        let opcode = self.instruction.opcode as usize;
        let entry = if opcode < self.table.len() {
            self.table[opcode]
        } else {
            Err(Fault::UnknownOpcode)
        };
        match entry {
            Ok((mnemonic, mode)) => {
                let was_enabled = pins.bus_enable;
                pins.bus_enable = true;
                let result = self.dispatch(pins, mnemonic, mode);
                if result.is_err() {
                    pins.bus_enable = was_enabled;
                }
                result
            },
            Err(fault) => Err(fault),
        }
    }

    /// One cycle of the entry into an interrupt routine.
    fn interrupt_handler(&mut self, pins: &mut Pins) -> (result: Result<(), Fault>)
        ensures
            step_taken(
                old(self)@.interrupt_step(old(pins)@),
                result,
                (old(self)@, old(pins)@),
                (final(self)@, final(pins)@),
            ),
            final(self).same_wiring(old(self)),
    {
        if self.int_status == InterruptStatus::Idle {
            return Err(Fault::NoInterrupt);
        }
        if self.cycle < 1 || self.cycle > 9 {
            return Err(Fault::BadCycle);
        }
        self.word = false;
        match self.cycle {
            1 => {
                pins.irq.ack = true;
            },
            2 => {
                pins.bus_enable = true;
                pins.irq.ack = false;
                if self.int_status == InterruptStatus::Normal {
                    self.int_num = pins.irq.data;
                    pins.address = ExtendedAddress::new_16bit_address(
                        ((pins.irq.data % 16) * 3) as u16,
                    );
                } else {
                    pins.address = ExtendedAddress::new_16bit_address(NMI_VECTOR);
                }
                pins.rw = ReadWrite::Read;
            },
            3 => {
                self.temp_addr.set_extended_value(low(pins.data));
                pins.address.increment();
                pins.rw = ReadWrite::Read;
            },
            4 => {
                self.temp_addr.set_hi_byte(low(pins.data));
                pins.address.increment();
                pins.rw = ReadWrite::Read;
            },
            5 => {
                self.temp_addr.set_low_byte(low(pins.data));
                pins.address = self.sp.to_address();
                pins.data = self.flags.bits();
                pins.rw = ReadWrite::Write;
            },
            6 => {
                self.sp.increment();
                pins.address = self.sp.to_address();
                pins.data = self.pc.get_extended_value() as u16;
                pins.rw = ReadWrite::Write;
            },
            7 => {
                self.sp.increment();
                pins.address = self.sp.to_address();
                pins.data = self.pc.get_hi_byte() as u16;
                pins.rw = ReadWrite::Write;
            },
            8 => {
                self.sp.increment();
                pins.address = self.sp.to_address();
                pins.data = self.pc.get_low_byte() as u16;
                pins.rw = ReadWrite::Write;
            },
            _ => {
                self.sp.increment();
                self.pc = self.temp_addr;
                if self.int_status == InterruptStatus::Normal {
                    self.int_status = InterruptStatus::Idle;
                }
                self.finish(pins);
            },
        }
        Ok(())
    }
}

} // verus!
