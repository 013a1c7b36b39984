//! The entry into an interrupt routine, and the way back.

use vstd::prelude::*;
use crate::address::{bank_address, bank_of, segment_of};
use crate::bits::{join_bytes, low_byte};
use crate::cpu::{CPUState, InterruptStatus, Machine, PinsModel, ReadWrite, table_entry};
use crate::cpu::laws::calls::lemma_return;
use crate::cpu::laws::fetch::lemma_fetch;
use crate::cpu::laws::about_to_execute;
use crate::cpu::model::{NMI_VECTOR, vector_slot};
use crate::cpu::system::{System, lemma_turns_add};
use crate::info::{Decoded, Mnemonic};
use crate::pins::IRQ;

verus! {

/// The slot of the vector table that an interrupt goes through: that of the
/// requester's number for a maskable interrupt, the fixed slot for a
/// non-maskable one.
pub open spec fn vector_of(machine: Machine, pins: PinsModel) -> int {
    if machine.int_status == InterruptStatus::Normal {
        vector_slot(pins.irq.data)
    } else {
        NMI_VECTOR as int
    }
}

/// The vector number that the engine holds after the entry: the requester's
/// for a maskable interrupt, the one from before for a non-maskable one.
pub open spec fn number_taken(machine: Machine, pins: PinsModel) -> u8 {
    if machine.int_status == InterruptStatus::Normal {
        pins.irq.data
    } else {
        machine.int_num
    }
}

/// The latch after the entry: a maskable interrupt is served, a non-maskable
/// one stays latched.
pub open spec fn latch_after(machine: Machine) -> InterruptStatus {
    if machine.int_status == InterruptStatus::Normal {
        InterruptStatus::Idle
    } else {
        machine.int_status
    }
}

/// The state after the entry: the engine fetches at the routine of a maskable
/// interrupt; with a non-maskable one still latched, it enters again.
pub open spec fn state_after(machine: Machine) -> CPUState {
    if machine.int_status == InterruptStatus::Normal {
        CPUState::Fetch
    } else {
        CPUState::Interrupt
    }
}

proof fn lemma_interrupt_first(
    machine: Machine,
    pins: PinsModel,
    memory: Seq<u8>,
    table: Seq<Decoded>,
)
    requires
        machine.state == CPUState::Interrupt,
        machine.int_status != InterruptStatus::Idle,
        machine.cycle == 1,
        !pins.bus_enable,
    ensures
        (System { machine, pins, memory }).turn(table) == Some(
            System {
                machine: Machine { cycle: 2, word: false, ..machine },
                pins: PinsModel { irq: IRQ { ack: true, ..pins.irq }, ..pins },
                memory: memory,
            },
        ),
{
    reveal(System::turn);
}

proof fn lemma_interrupt_second(
    machine: Machine,
    pins: PinsModel,
    memory: Seq<u8>,
    table: Seq<Decoded>,
)
    requires
        machine.state == CPUState::Interrupt,
        machine.int_status != InterruptStatus::Idle,
        machine.cycle == 2,
        vector_of(machine, pins) < memory.len() <= 0x100_0000,
    ensures
        (System { machine, pins, memory }).turn(table) == Some(
            System {
                machine: Machine {
                    cycle: 3,
                    word: false,
                    int_num: number_taken(machine, pins),
                    ..machine
                },
                pins: PinsModel {
                    bus_enable: true,
                    irq: IRQ { ack: false, ..pins.irq },
                    address: vector_of(machine, pins),
                    rw: ReadWrite::Read,
                    data: memory[vector_of(machine, pins)] as u16,
                    ..pins
                },
                memory: memory,
            },
        ),
{
    reveal(System::turn);
}

proof fn lemma_interrupt_third(
    machine: Machine,
    pins: PinsModel,
    memory: Seq<u8>,
    table: Seq<Decoded>,
)
    requires
        machine.state == CPUState::Interrupt,
        machine.int_status != InterruptStatus::Idle,
        machine.cycle == 3,
        pins.bus_enable,
        pins.data < 256,
        0 <= pins.address,
        pins.address + 1 < memory.len() <= 0x100_0000,
    ensures
        (System { machine, pins, memory }).turn(table) == Some(
            System {
                machine: Machine {
                    cycle: 4,
                    word: false,
                    temp_addr: bank_address(pins.data as int, segment_of(machine.temp_addr)),
                    ..machine
                },
                pins: PinsModel {
                    address: pins.address + 1,
                    rw: ReadWrite::Read,
                    data: memory[pins.address + 1] as u16,
                    ..pins
                },
                memory: memory,
            },
        ),
{
    reveal(System::turn);
}

proof fn lemma_interrupt_fourth(
    machine: Machine,
    pins: PinsModel,
    memory: Seq<u8>,
    table: Seq<Decoded>,
)
    requires
        machine.state == CPUState::Interrupt,
        machine.int_status != InterruptStatus::Idle,
        machine.cycle == 4,
        pins.bus_enable,
        pins.data < 256,
        0 <= pins.address,
        pins.address + 1 < memory.len() <= 0x100_0000,
    ensures
        (System { machine, pins, memory }).turn(table) == Some(
            System {
                machine: Machine {
                    cycle: 5,
                    word: false,
                    temp_addr: bank_address(
                        bank_of(machine.temp_addr),
                        pins.data * 256 + machine.temp_addr % 256,
                    ),
                    ..machine
                },
                pins: PinsModel {
                    address: pins.address + 1,
                    rw: ReadWrite::Read,
                    data: memory[pins.address + 1] as u16,
                    ..pins
                },
                memory: memory,
            },
        ),
{
    reveal(System::turn);
}

proof fn lemma_interrupt_fifth(
    machine: Machine,
    pins: PinsModel,
    memory: Seq<u8>,
    table: Seq<Decoded>,
)
    requires
        machine.state == CPUState::Interrupt,
        machine.int_status != InterruptStatus::Idle,
        machine.cycle == 5,
        pins.bus_enable,
        pins.data < 256,
        machine.sp + 4 <= 0xFFFF,
        machine.sp_address() + 3 < memory.len() <= 0x100_0000,
    ensures
        (System { machine, pins, memory }).turn(table) == Some(
            System {
                machine: Machine {
                    cycle: 6,
                    word: false,
                    temp_addr: (machine.temp_addr / 256) * 256 + pins.data,
                    ..machine
                },
                pins: PinsModel {
                    address: machine.sp_address(),
                    rw: ReadWrite::Write,
                    data: machine.flags,
                    ..pins
                },
                memory: memory.update(machine.sp_address(), low_byte(machine.flags)),
            },
        ),
{
    reveal(System::turn);
}

proof fn lemma_interrupt_sixth(
    machine: Machine,
    pins: PinsModel,
    memory: Seq<u8>,
    table: Seq<Decoded>,
)
    requires
        machine.state == CPUState::Interrupt,
        machine.int_status != InterruptStatus::Idle,
        machine.cycle == 6,
        pins.bus_enable,
        0 <= machine.pc < 0x100_0000,
        machine.sp + 4 <= 0xFFFF,
        machine.sp_address() + 3 < memory.len() <= 0x100_0000,
    ensures
        (System { machine, pins, memory }).turn(table) == Some(
            System {
                machine: Machine { cycle: 7, word: false, sp: (machine.sp + 1) as u16, ..machine },
                pins: PinsModel {
                    address: machine.sp_address() + 1,
                    rw: ReadWrite::Write,
                    data: bank_of(machine.pc) as u16,
                    ..pins
                },
                memory: memory.update(machine.sp_address() + 1, bank_of(machine.pc) as u8),
            },
        ),
{
    reveal(System::turn);
}

proof fn lemma_interrupt_seventh(
    machine: Machine,
    pins: PinsModel,
    memory: Seq<u8>,
    table: Seq<Decoded>,
)
    requires
        machine.state == CPUState::Interrupt,
        machine.int_status != InterruptStatus::Idle,
        machine.cycle == 7,
        pins.bus_enable,
        0 <= machine.pc < 0x100_0000,
        machine.sp + 3 <= 0xFFFF,
        machine.sp_address() + 2 < memory.len() <= 0x100_0000,
    ensures
        (System { machine, pins, memory }).turn(table) == Some(
            System {
                machine: Machine { cycle: 8, word: false, sp: (machine.sp + 1) as u16, ..machine },
                pins: PinsModel {
                    address: machine.sp_address() + 1,
                    rw: ReadWrite::Write,
                    data: ((machine.pc / 256) % 256) as u16,
                    ..pins
                },
                memory: memory.update(machine.sp_address() + 1, ((machine.pc / 256) % 256) as u8),
            },
        ),
{
    reveal(System::turn);
}

proof fn lemma_interrupt_eighth(
    machine: Machine,
    pins: PinsModel,
    memory: Seq<u8>,
    table: Seq<Decoded>,
)
    requires
        machine.state == CPUState::Interrupt,
        machine.int_status != InterruptStatus::Idle,
        machine.cycle == 8,
        pins.bus_enable,
        0 <= machine.pc < 0x100_0000,
        machine.sp + 2 <= 0xFFFF,
        machine.sp_address() + 1 < memory.len() <= 0x100_0000,
    ensures
        (System { machine, pins, memory }).turn(table) == Some(
            System {
                machine: Machine { cycle: 9, word: false, sp: (machine.sp + 1) as u16, ..machine },
                pins: PinsModel {
                    address: machine.sp_address() + 1,
                    rw: ReadWrite::Write,
                    data: (machine.pc % 256) as u16,
                    ..pins
                },
                memory: memory.update(machine.sp_address() + 1, (machine.pc % 256) as u8),
            },
        ),
{
    reveal(System::turn);
}

proof fn lemma_interrupt_ninth(
    machine: Machine,
    pins: PinsModel,
    memory: Seq<u8>,
    table: Seq<Decoded>,
)
    requires
        machine.state == CPUState::Interrupt,
        machine.int_status != InterruptStatus::Idle,
        machine.cycle == 9,
        machine.sp + 1 <= 0xFFFF,
    ensures
        (System { machine, pins, memory }).turn(table) == Some(
            System {
                machine: Machine {
                    cycle: 1,
                    word: false,
                    sp: (machine.sp + 1) as u16,
                    pc: machine.temp_addr,
                    int_status: latch_after(machine),
                    state: state_after(machine),
                    ..machine
                },
                pins: PinsModel { bus_enable: false, ..pins },
                memory: memory,
            },
        ),
{
    reveal(System::turn);
}

/// The memory after the entry into an interrupt routine pushed its four bytes
/// at the stack pointer: the low byte of the status word, and the bank, the
/// upper and the lower byte of the program counter.
pub open spec fn memory_after_interrupt(machine: Machine, memory: Seq<u8>) -> Seq<u8> {
    let stack = machine.sp_address();
    memory.update(stack, low_byte(machine.flags)).update(stack + 1, bank_of(machine.pc) as u8).update(
        stack + 2,
        ((machine.pc / 256) % 256) as u8,
    ).update(stack + 3, (machine.pc % 256) as u8)
}

/// Whether the engine is about to enter the routine of an interrupt of
/// either kind, with the bus released as the end of an instruction leaves it,
/// and the memory holds the three bytes of the vector and four bytes at the
/// stack pointer.
pub open spec fn about_to_interrupt(machine: Machine, pins: PinsModel, memory: Seq<u8>) -> bool {
    &&& machine.state == CPUState::Interrupt
    &&& machine.int_status != InterruptStatus::Idle
    &&& machine.cycle == 1
    &&& !pins.bus_enable
    &&& 0 <= machine.pc < 0x100_0000
    &&& vector_of(machine, pins) + 2 < memory.len() <= 0x100_0000
    &&& machine.sp + 4 <= 0xFFFF
    &&& machine.sp_address() + 3 < memory.len()
}

/// The address of the routine of the interrupt that waits, as the vector
/// table in the memory gives it.
pub open spec fn routine_address(machine: Machine, pins: PinsModel, memory: Seq<u8>) -> int {
    let slot = vector_of(machine, pins);
    bank_address(memory[slot] as int, join_bytes(memory[slot + 1], memory[slot + 2]) as int)
}

/// The entry into an interrupt routine takes nine cycles, for either kind of
/// interrupt. It leaves the program counter at the address in the slot of the
/// vector table, the stack pointer four bytes up, and on the stack the status
/// byte and the program counter from before. A maskable interrupt is served
/// then, and the engine fetches; a non-maskable one stays latched, and the
/// engine is about to enter again.
pub proof fn lemma_interrupt_entry(
    machine: Machine,
    pins: PinsModel,
    memory: Seq<u8>,
    table: Seq<Decoded>,
)
    requires
        about_to_interrupt(machine, pins, memory),
    ensures
        (System { machine, pins, memory }).turns(table, 9) matches Some(system) && {
            &&& system.machine == (Machine {
                pc: routine_address(machine, pins, memory),
                temp_addr: routine_address(machine, pins, memory),
                sp: (machine.sp + 4) as u16,
                int_status: latch_after(machine),
                int_num: number_taken(machine, pins),
                state: state_after(machine),
                cycle: 1,
                word: false,
                ..machine
            })
            &&& system.memory == memory_after_interrupt(machine, memory)
            &&& system.pins.irq == (IRQ { ack: false, ..pins.irq })
        },
{
    let start = System { machine, pins, memory };
    lemma_interrupt_first(machine, pins, memory, table);
    let one = start.turn(table)->0;
    lemma_interrupt_second(one.machine, one.pins, one.memory, table);
    let two = one.turn(table)->0;
    lemma_interrupt_third(two.machine, two.pins, two.memory, table);
    let three = two.turn(table)->0;
    lemma_interrupt_fourth(three.machine, three.pins, three.memory, table);
    let four = three.turn(table)->0;
    lemma_interrupt_fifth(four.machine, four.pins, four.memory, table);
    let five = four.turn(table)->0;
    lemma_interrupt_sixth(five.machine, five.pins, five.memory, table);
    let six = five.turn(table)->0;
    lemma_interrupt_seventh(six.machine, six.pins, six.memory, table);
    let seven = six.turn(table)->0;
    lemma_interrupt_eighth(seven.machine, seven.pins, seven.memory, table);
    let eight = seven.turn(table)->0;
    lemma_interrupt_ninth(eight.machine, eight.pins, eight.memory, table);
    let nine = eight.turn(table)->0;
    assert(start.turns(table, 9) == Some(nine)) by {
        reveal_with_fuel(System::turns, 10);
    }
}

/// The routine of a maskable interrupt that returns at once comes back to
/// where the engine was: after the nine cycles of the entry, the fetch at the routine and the
/// return, with the request withdrawn once it was acknowledged, the program
/// counter is the one from before the interrupt, which is the address of the
/// instruction that would have come next; the stack pointer is where it was,
/// and the status word is its low byte from before.
pub proof fn lemma_interrupt_and_return(
    machine: Machine,
    pins: PinsModel,
    memory: Seq<u8>,
    table: Seq<Decoded>,
)
    requires
        about_to_interrupt(machine, pins, memory),
        machine.int_status == InterruptStatus::Normal,
        0 <= routine_address(machine, pins, memory),
        routine_address(machine, pins, memory) + 2 < memory.len(),
        table_entry(
            table,
            memory_after_interrupt(machine, memory)[routine_address(machine, pins, memory)],
        ) matches Ok((found, _)) && found == Mnemonic::Rts,
    ensures
        (System { machine, pins, memory }).turns(table, 9) matches Some(entered) && (System {
            pins: PinsModel { irq: IRQ { req: false, nmi: false, ..entered.pins.irq }, ..entered.pins },
            ..entered
        }).turns(table, 8) matches Some(system) && {
            &&& system.machine.pc == machine.pc
            &&& system.machine.sp == machine.sp
            &&& system.machine.sp_page == machine.sp_page
            &&& system.machine.flags == low_byte(machine.flags) as u16
        },
{
    let start = System { machine, pins, memory };
    lemma_interrupt_entry(machine, pins, memory, table);
    let entered = start.turns(table, 9)->0;
    let quiet = System {
        pins: PinsModel { irq: IRQ { req: false, nmi: false, ..entered.pins.irq }, ..entered.pins },
        ..entered
    };
    lemma_fetch(quiet.machine, quiet.pins, quiet.memory, table);
    let fetched = quiet.turns(table, 3)->0;
    lemma_return(fetched.machine, fetched.pins, fetched.memory, table);
    lemma_turns_add(quiet, table, 3, 5);
}

/// A return matches the entry into an interrupt routine of either kind:
/// whatever ran since the entry, if it left the stack pointer where the entry
/// left it and the four bytes that the entry pushed as they were, the return
/// leaves the program counter where it was when the engine was interrupted,
/// which is the address of the instruction that would have come next; the
/// stack pointer is where it was, and the status word is its low byte from
/// before.
pub proof fn lemma_return_matches_interrupt(
    interrupted: Machine,
    before: Seq<u8>,
    machine: Machine,
    pins: PinsModel,
    memory: Seq<u8>,
    table: Seq<Decoded>,
)
    requires
        0 <= interrupted.pc < 0x100_0000,
        interrupted.sp + 4 <= 0xFFFF,
        interrupted.sp_address() + 3 < before.len() <= 0x100_0000,
        about_to_execute(machine, pins, table, Mnemonic::Rts),
        machine.sp == interrupted.sp + 4,
        machine.sp_page == interrupted.sp_page,
        memory.len() == before.len(),
        memory[interrupted.sp_address()] == memory_after_interrupt(
            interrupted,
            before,
        )[interrupted.sp_address()],
        memory[interrupted.sp_address() + 1] == memory_after_interrupt(
            interrupted,
            before,
        )[interrupted.sp_address() + 1],
        memory[interrupted.sp_address() + 2] == memory_after_interrupt(
            interrupted,
            before,
        )[interrupted.sp_address() + 2],
        memory[interrupted.sp_address() + 3] == memory_after_interrupt(
            interrupted,
            before,
        )[interrupted.sp_address() + 3],
    ensures
        (System { machine, pins, memory }).turns(table, 5) matches Some(system) && {
            &&& system.machine.pc == interrupted.pc
            &&& system.machine.sp == interrupted.sp
            &&& system.machine.sp_page == interrupted.sp_page
            &&& system.machine.flags == low_byte(interrupted.flags) as u16
        },
{
    lemma_return(machine, pins, memory, table);
}

} // verus!
