//! The execution engine: a state machine that does one bus transaction's worth
//! of work each time it is called.

pub mod model;
pub mod options;
pub mod registers;
pub mod resolver;
pub mod bus;
pub mod cycle;
pub mod instructions;
pub mod system;
pub mod laws;

pub use crate::address::{ExtendedAddress, StackAddress};
pub use crate::flags::{Flag, Flags};
pub use crate::metadata::{AddressingMode, CPUMetadata, Instruction};
pub use crate::pins::{IRQ, Pins, PinsModel, ReadWrite};
pub use crate::register::Register;
pub use bus::{bus_resolved, devices_served, io_devices_served, io_resolved, resolved};
pub use cycle::{Cycle, cycle_taken, table_entry};
pub use options::EmuOptions;
pub use model::{
    CPUState, Continuation, Fault, InterruptStatus, Machine, RegisterName, RegisterReturn,
    Status, Step,
};

use vstd::prelude::*;
use crate::device::{AddressMappedDevice, IOMappedDevice};
use crate::info::{Decoded, InstructionInfoFile, build_table, decode_table};

verus! {

/// Whether a step came out as the machine says: the state and the pins are
/// those that it gives, or, on a fault, those from before the step.
pub open spec fn step_taken(
    expected: Step,
    result: Result<(), Fault>,
    before: (Machine, PinsModel),
    after: (Machine, PinsModel),
) -> bool {
    match expected {
        Ok(next) => result == Ok::<(), Fault>(()) && after == next,
        Err(fault) => result == Err::<(), Fault>(fault) && after == before,
    }
}

/// The engine, for address-mapped devices of type `D` and input/output
/// devices of type `P`.
pub struct CPU<D: AddressMappedDevice, P: IOMappedDevice> {
    ra: Register,
    rb: Register,
    rc: Register,
    rd: Register,
    flags: Flags,
    pc: ExtendedAddress,
    sp: StackAddress,
    devices: Vec<D>,
    io_devices: Vec<P>,
    instruction: Instruction,
    state: CPUState,
    int_status: InterruptStatus,
    int_num: u8,
    cycle: u8,
    temp_addr: ExtendedAddress,
    options: EmuOptions,
    word: bool,
    table: Vec<Decoded>,
}

/// The pins after a reset: a read at address zero with the bus on, the
/// input/output bus off and cleared. The interrupt lines and the direction of
/// the input/output bus stay.
pub open spec fn reset_pins(pins: PinsModel) -> PinsModel {
    PinsModel {
        address: 0,
        data: 0,
        rw: ReadWrite::Read,
        bus_enable: true,
        io_address: 0,
        io_data: 0,
        io_enable: false,
        ..pins
    }
}

impl<D: AddressMappedDevice, P: IOMappedDevice> View for CPU<D, P> {
    type V = Machine;

    /// The engine stands for the state of the machine: its registers, flags
    /// and counters, without the devices, the switches and the opcode table.
    closed spec fn view(&self) -> Machine {
        Machine {
            ra: self.ra@,
            rb: self.rb@,
            rc: self.rc@,
            rd: self.rd@,
            flags: self.flags@,
            pc: self.pc@,
            sp: self.sp.offset_value(),
            sp_page: self.sp.bank(),
            opcode: self.instruction.opcode,
            metadata: self.instruction.metadata.0,
            state: self.state,
            int_status: self.int_status,
            int_num: self.int_num,
            cycle: self.cycle,
            temp_addr: self.temp_addr@,
            word: self.word,
        }
    }
}

impl<D: AddressMappedDevice, P: IOMappedDevice> CPU<D, P> {
    /// The devices on the address bus, in the order in which they were added.
    pub closed spec fn devices(&self) -> Seq<D> {
        self.devices@
    }

    /// The devices on the input/output bus, in the order in which they were
    /// added.
    pub closed spec fn io_devices(&self) -> Seq<P> {
        self.io_devices@
    }

    /// The switches that the engine was made with.
    pub closed spec fn options(&self) -> EmuOptions {
        self.options
    }

    /// What each opcode stands for.
    pub closed spec fn table(&self) -> Seq<Decoded> {
        self.table@
    }

    /// Whether two engines have the same devices, switches and opcode table:
    /// all that a cycle leaves alone.
    pub open spec fn same_wiring(&self, other: &CPU<D, P>) -> bool {
        &&& self.devices() == other.devices()
        &&& self.io_devices() == other.io_devices()
        &&& self.options() == other.options()
        &&& self.table() == other.table()
    }

    /// An engine with the opcode table `inst_info` and the switches
    /// `options`, none set where none are given. It has no devices yet.
    pub fn new(inst_info: InstructionInfoFile, options: Option<EmuOptions>) -> (cpu: Self)
        ensures
            cpu@ == Machine::power_on(),
            cpu.table() == decode_table(inst_info.opcodes@),
            cpu.devices().len() == 0,
            cpu.io_devices().len() == 0,
            cpu.options().bits() == (match options {
                Some(o) => o.bits(),
                None => 0u8,
            }),
    {
        let table = build_table(&inst_info.opcodes);
        CPU {
            ra: Register::new(),
            rb: Register::new(),
            rc: Register::new(),
            rd: Register::new(),
            flags: Flags::empty(),
            pc: ExtendedAddress::new_16bit_address(0),
            sp: StackAddress::new(0, Some(0)),
            devices: Vec::new(),
            io_devices: Vec::new(),
            instruction: Instruction { opcode: 0, metadata: CPUMetadata(0) },
            state: CPUState::Reset,
            int_status: InterruptStatus::Idle,
            int_num: 0,
            cycle: 1,
            temp_addr: ExtendedAddress::new_16bit_address(0),
            options: match options {
                Some(o) => o,
                None => EmuOptions::new(),
            },
            word: false,
            table,
        }
    }

    /// Brings the engine and the pins back to the start: see
    /// [`Machine::reset`] and [`reset_pins`].
    pub fn reset(&mut self, pins: &mut Pins)
        ensures
            final(self)@ == old(self)@.reset(),
            final(pins)@ == reset_pins(old(pins)@),
            final(self).same_wiring(old(self)),
    {
        self.ra.set_word(0);
        self.rb.set_word(0);
        self.rc.set_word(0);
        self.rd.set_word(0);
        self.pc.set_18bit_value(0);
        self.sp = StackAddress::new(0x0000, None);
        self.state = CPUState::Reset;
        self.cycle = 1;
        self.flags = Flags::empty();
        pins.address.set_16bit_value(0);
        pins.data = 0;
        pins.rw = ReadWrite::Read;
        pins.bus_enable = true;
        pins.io_address = 0;
        pins.io_data = 0;
        pins.io_enable = false;
    }

    /// The program counter.
    pub fn program_counter(&self) -> (pc: ExtendedAddress)
        ensures
            pc@ == self@.pc,
    {
        self.pc
    }

    /// The stack pointer.
    pub fn stack_pointer(&self) -> (sp: StackAddress)
        ensures
            sp.offset_value() == self@.sp,
            sp.bank() == self@.sp_page,
    {
        self.sp
    }

    /// The status word.
    pub fn status_word(&self) -> (bits: u16)
        ensures
            bits == self@.flags,
    {
        self.flags.bits()
    }

    /// The word in a register.
    pub fn register_word(&self, name: RegisterName) -> (word: u16)
        ensures
            word == self@.register(name),
    {
        self.register_ref(name).get_word()
    }

    /// What the engine does in the next cycle.
    pub fn state(&self) -> (state: CPUState)
        ensures
            state == self@.state,
    {
        self.state
    }

    /// The cycle of the present state or instruction.
    pub fn cycle_count(&self) -> (cycle: u8)
        ensures
            cycle == self@.cycle,
    {
        self.cycle
    }

    /// Whether the transaction on the bus moves a word.
    pub fn is_word(&self) -> (word: bool)
        ensures
            word == self@.word,
    {
        self.word
    }

    /// The interrupt that waits to be served.
    pub fn interrupt_status(&self) -> (status: InterruptStatus)
        ensures
            status == self@.int_status,
    {
        self.int_status
    }

    /// The instruction last fetched.
    pub fn instruction(&self) -> (instruction: Instruction)
        ensures
            instruction.opcode == self@.opcode,
            instruction.metadata.0 == self@.metadata,
    {
        self.instruction
    }

}

} // verus!
