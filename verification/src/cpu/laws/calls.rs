//! Calls and returns: a return comes back to where the call was made.

use vstd::prelude::*;
use crate::address::{bank_address, bank_of, segment_of};
use crate::bits::{join_bytes, low_byte};
use crate::cpu::{CPUState, Machine, PinsModel, ReadWrite, table_entry};
use crate::cpu::laws::about_to_execute;
use crate::cpu::laws::fetch::lemma_fetch;
use crate::cpu::system::{System, lemma_turns_add};
use crate::info::{Decoded, Mnemonic};

verus! {

/// The address that an instruction with an absolute operand names, where the
/// three bytes of the operand lie at the program counter: the bank byte first,
/// then the upper and the lower byte of the segment word.
#[verifier::opaque]
pub open spec fn operand_address(machine: Machine, memory: Seq<u8>) -> int {
    (Machine {
        temp_addr: bank_address(memory[machine.pc] as int, segment_of(machine.temp_addr)),
        ..machine
    }).effective_address(join_bytes(memory[machine.pc + 1], memory[machine.pc + 2]))
}

/// The memory after a call from `machine` pushed its four bytes at the stack
/// pointer: the low byte of the status word, and the bank, the upper and the
/// lower byte of the address behind the call's operand.
pub open spec fn memory_after_call(machine: Machine, memory: Seq<u8>) -> Seq<u8> {
    let stack = machine.sp_address();
    let back = machine.pc + 3;
    memory.update(stack, low_byte(machine.flags)).update(stack + 1, bank_of(back) as u8).update(
        stack + 2,
        ((back / 256) % 256) as u8,
    ).update(stack + 3, (back % 256) as u8)
}

/// Whether the memory holds the three bytes at the program counter and four
/// bytes at the stack pointer, and the stack pointer can move four bytes up
/// inside its bank.
pub open spec fn room_to_call(machine: Machine, memory: Seq<u8>) -> bool {
    &&& 0 <= machine.pc
    &&& machine.pc + 3 < memory.len() <= 0x100_0000
    &&& machine.sp + 4 <= 0xFFFF
    &&& machine.sp_address() + 3 < memory.len()
}

proof fn lemma_call_first(machine: Machine, pins: PinsModel, memory: Seq<u8>, table: Seq<Decoded>)
    requires
        about_to_execute(machine, pins, table, Mnemonic::Jsr),
        room_to_call(machine, memory),
    ensures
        (System { machine, pins, memory }).turn(table) == Some(
            System {
                machine: Machine { cycle: 2, word: false, ..machine },
                pins: PinsModel {
                    address: machine.pc,
                    rw: ReadWrite::Read,
                    bus_enable: true,
                    data: memory[machine.pc] as u16,
                    ..pins
                },
                memory,
            },
        ),
{
    reveal(System::turn);
    reveal(Machine::call);
}

proof fn lemma_call_second(machine: Machine, pins: PinsModel, memory: Seq<u8>, table: Seq<Decoded>)
    requires
        about_to_execute(Machine { cycle: 1, ..machine }, pins, table, Mnemonic::Jsr),
        machine.cycle == 2,
        pins.bus_enable,
        room_to_call(machine, memory),
    ensures
        (System { machine, pins, memory }).turn(table) == Some(
            System {
                machine: Machine {
                    cycle: 3,
                    word: true,
                    pc: machine.pc + 1,
                    temp_addr: bank_address(
                        low_byte(pins.data) as int,
                        segment_of(machine.temp_addr),
                    ),
                    ..machine
                },
                pins: PinsModel {
                    address: machine.pc + 1,
                    rw: ReadWrite::Read,
                    data: join_bytes(memory[machine.pc + 1], memory[machine.pc + 2]),
                    ..pins
                },
                memory,
            },
        ),
{
    reveal(System::turn);
    reveal(Machine::call);
}

proof fn lemma_call_third(machine: Machine, pins: PinsModel, memory: Seq<u8>, table: Seq<Decoded>)
    requires
        about_to_execute(Machine { cycle: 1, ..machine }, pins, table, Mnemonic::Jsr),
        machine.cycle == 3,
        pins.bus_enable,
        0 <= machine.pc,
        machine.pc + 2 < 0x100_0000,
        machine.sp + 4 <= 0xFFFF,
        machine.sp_address() + 3 < memory.len() <= 0x100_0000,
    ensures
        (System { machine, pins, memory }).turn(table) == Some(
            System {
                machine: Machine {
                    cycle: 4,
                    word: false,
                    pc: machine.pc + 2,
                    temp_addr: machine.effective_address(pins.data),
                    ..machine
                },
                pins: PinsModel {
                    address: machine.sp_address(),
                    rw: ReadWrite::Write,
                    data: machine.flags,
                    ..pins
                },
                memory: memory.update(machine.sp_address(), low_byte(machine.flags)),
            },
        ),
{
    reveal(System::turn);
    reveal(Machine::call);
}

proof fn lemma_call_fourth(machine: Machine, pins: PinsModel, memory: Seq<u8>, table: Seq<Decoded>)
    requires
        about_to_execute(Machine { cycle: 1, ..machine }, pins, table, Mnemonic::Jsr),
        machine.cycle == 4,
        pins.bus_enable,
        0 <= machine.pc < 0x100_0000,
        machine.sp + 4 <= 0xFFFF,
        machine.sp_address() + 3 < memory.len() <= 0x100_0000,
    ensures
        (System { machine, pins, memory }).turn(table) == Some(
            System {
                machine: Machine {
                    cycle: 5,
                    word: false,
                    sp: (machine.sp + 1) as u16,
                    ..machine
                },
                pins: PinsModel {
                    address: machine.sp_address() + 1,
                    rw: ReadWrite::Write,
                    data: bank_of(machine.pc) as u16,
                    ..pins
                },
                memory: memory.update(machine.sp_address() + 1, bank_of(machine.pc) as u8),
            },
        ),
{
    reveal(System::turn);
    reveal(Machine::call);
}

#[verifier::rlimit(40)]
proof fn lemma_call_fifth(machine: Machine, pins: PinsModel, memory: Seq<u8>, table: Seq<Decoded>)
    requires
        about_to_execute(Machine { cycle: 1, ..machine }, pins, table, Mnemonic::Jsr),
        machine.cycle == 5,
        pins.bus_enable,
        0 <= machine.pc < 0x100_0000,
        machine.sp + 3 <= 0xFFFF,
        machine.sp_address() + 2 < memory.len() <= 0x100_0000,
    ensures
        (System { machine, pins, memory }).turn(table) == Some(
            System {
                machine: Machine { cycle: 6, word: true, sp: (machine.sp + 1) as u16, ..machine },
                pins: PinsModel {
                    address: machine.sp_address() + 1,
                    rw: ReadWrite::Write,
                    data: segment_of(machine.pc) as u16,
                    ..pins
                },
                memory: memory.update(
                    machine.sp_address() + 1,
                    ((machine.pc / 256) % 256) as u8,
                ).update(machine.sp_address() + 2, (machine.pc % 256) as u8),
            },
        ),
{
    reveal(System::turn);
    reveal(Machine::call);
}

proof fn lemma_call_sixth(machine: Machine, pins: PinsModel, memory: Seq<u8>, table: Seq<Decoded>)
    requires
        about_to_execute(Machine { cycle: 1, ..machine }, pins, table, Mnemonic::Jsr),
        machine.cycle == 6,
        machine.sp + 2 <= 0xFFFF,
    ensures
        (System { machine, pins, memory }).turn(table) == Some(
            System {
                machine: Machine {
                    cycle: 1,
                    state: CPUState::Fetch,
                    sp: (machine.sp + 2) as u16,
                    pc: machine.temp_addr,
                    ..machine
                },
                pins: PinsModel { bus_enable: false, ..pins },
                memory,
            },
        ),
{
    reveal(System::turn);
    reveal(Machine::call);
}

/// A call takes six cycles. It leaves the program counter at the address that
/// its operand names, the stack pointer four bytes up, and on the stack the
/// low byte of the status word and the address behind its operand; then the
/// engine fetches. Registers and flags stay as they are.
pub proof fn lemma_call(machine: Machine, pins: PinsModel, memory: Seq<u8>, table: Seq<Decoded>)
    requires
        about_to_execute(machine, pins, table, Mnemonic::Jsr),
        room_to_call(machine, memory),
    ensures
        (System { machine, pins, memory }).turns(table, 6) matches Some(system) && {
            &&& system.machine == (Machine {
                pc: operand_address(machine, memory),
                sp: (machine.sp + 4) as u16,
                temp_addr: operand_address(machine, memory),
                state: CPUState::Fetch,
                cycle: 1,
                word: true,
                ..machine
            })
            &&& system.memory == memory_after_call(machine, memory)
            &&& system.pins.irq == pins.irq
        },
{
    reveal(operand_address);
    let start = System { machine, pins, memory };
    lemma_call_first(machine, pins, memory, table);
    let one = start.turn(table)->0;
    lemma_call_second(one.machine, one.pins, one.memory, table);
    let two = one.turn(table)->0;
    lemma_call_third(two.machine, two.pins, two.memory, table);
    let three = two.turn(table)->0;
    lemma_call_fourth(three.machine, three.pins, three.memory, table);
    let four = three.turn(table)->0;
    lemma_call_fifth(four.machine, four.pins, four.memory, table);
    let five = four.turn(table)->0;
    lemma_call_sixth(five.machine, five.pins, five.memory, table);
    let six = five.turn(table)->0;
    assert(start.turns(table, 6) == Some(six)) by {
        reveal_with_fuel(System::turns, 7);
    }
}

/// Whether the stack holds four bytes below the stack pointer, inside the
/// memory.
pub open spec fn room_to_return(machine: Machine, memory: Seq<u8>) -> bool {
    &&& machine.sp >= 4
    &&& machine.sp_address() <= memory.len() <= 0x100_0000
}

proof fn lemma_return_first(machine: Machine, pins: PinsModel, memory: Seq<u8>, table: Seq<Decoded>)
    requires
        about_to_execute(machine, pins, table, Mnemonic::Rts),
        room_to_return(machine, memory),
    ensures
        (System { machine, pins, memory }).turn(table) == Some(
            System {
                machine: Machine {
                    cycle: 2,
                    word: false,
                    sp: (machine.sp - 1) as u16,
                    ..machine
                },
                pins: PinsModel {
                    address: machine.sp_address() - 1,
                    rw: ReadWrite::Read,
                    bus_enable: true,
                    data: memory[machine.sp_address() - 1] as u16,
                    ..pins
                },
                memory,
            },
        ),
{
    reveal(System::turn);
    reveal(Machine::ret);
}

proof fn lemma_return_second(
    machine: Machine,
    pins: PinsModel,
    memory: Seq<u8>,
    table: Seq<Decoded>,
)
    requires
        about_to_execute(Machine { cycle: 1, ..machine }, pins, table, Mnemonic::Rts),
        machine.cycle == 2,
        !machine.word,
        pins.bus_enable,
        pins.data < 256,
        machine.sp >= 3,
        machine.sp_address() <= memory.len() <= 0x100_0000,
    ensures
        (System { machine, pins, memory }).turn(table) == Some(
            System {
                machine: Machine {
                    cycle: 3,
                    sp: (machine.sp - 1) as u16,
                    temp_addr: (machine.temp_addr / 256) * 256 + pins.data,
                    ..machine
                },
                pins: PinsModel {
                    address: machine.sp_address() - 1,
                    rw: ReadWrite::Read,
                    data: memory[machine.sp_address() - 1] as u16,
                    ..pins
                },
                memory,
            },
        ),
{
    reveal(System::turn);
    reveal(Machine::ret);
}

proof fn lemma_return_third(machine: Machine, pins: PinsModel, memory: Seq<u8>, table: Seq<Decoded>)
    requires
        about_to_execute(Machine { cycle: 1, ..machine }, pins, table, Mnemonic::Rts),
        machine.cycle == 3,
        !machine.word,
        pins.bus_enable,
        pins.data < 256,
        machine.sp >= 2,
        machine.sp_address() <= memory.len() <= 0x100_0000,
    ensures
        (System { machine, pins, memory }).turn(table) == Some(
            System {
                machine: Machine {
                    cycle: 4,
                    sp: (machine.sp - 1) as u16,
                    temp_addr: bank_address(
                        bank_of(machine.temp_addr),
                        pins.data * 256 + machine.temp_addr % 256,
                    ),
                    ..machine
                },
                pins: PinsModel {
                    address: machine.sp_address() - 1,
                    rw: ReadWrite::Read,
                    data: memory[machine.sp_address() - 1] as u16,
                    ..pins
                },
                memory,
            },
        ),
{
    reveal(System::turn);
    reveal(Machine::ret);
}

proof fn lemma_return_fourth(
    machine: Machine,
    pins: PinsModel,
    memory: Seq<u8>,
    table: Seq<Decoded>,
)
    requires
        about_to_execute(Machine { cycle: 1, ..machine }, pins, table, Mnemonic::Rts),
        machine.cycle == 4,
        !machine.word,
        pins.bus_enable,
        pins.data < 256,
        machine.sp >= 1,
        machine.sp_address() <= memory.len() <= 0x100_0000,
    ensures
        (System { machine, pins, memory }).turn(table) == Some(
            System {
                machine: Machine {
                    cycle: 5,
                    sp: (machine.sp - 1) as u16,
                    temp_addr: bank_address(pins.data as int, segment_of(machine.temp_addr)),
                    ..machine
                },
                pins: PinsModel {
                    address: machine.sp_address() - 1,
                    rw: ReadWrite::Read,
                    data: memory[machine.sp_address() - 1] as u16,
                    ..pins
                },
                memory,
            },
        ),
{
    reveal(System::turn);
    reveal(Machine::ret);
}

proof fn lemma_return_fifth(machine: Machine, pins: PinsModel, memory: Seq<u8>, table: Seq<Decoded>)
    requires
        about_to_execute(Machine { cycle: 1, ..machine }, pins, table, Mnemonic::Rts),
        machine.cycle == 5,
    ensures
        (System { machine, pins, memory }).turn(table) == Some(
            System {
                machine: Machine {
                    cycle: 1,
                    state: CPUState::Fetch,
                    flags: pins.data,
                    pc: machine.temp_addr,
                    ..machine
                },
                pins: PinsModel { bus_enable: false, ..pins },
                memory,
            },
        ),
{
    reveal(System::turn);
    reveal(Machine::ret);
}

/// A return takes five cycles. It takes four bytes off the stack: the engine
/// goes on at the address in the upper three, the bank byte lowest, and the
/// status word becomes the byte below them. The stack pointer ends four
/// bytes down. This does not depend on what put the bytes there, so it holds
/// of a call at any depth of nesting whose callee leaves the stack as it
/// found it.
pub proof fn lemma_return(machine: Machine, pins: PinsModel, memory: Seq<u8>, table: Seq<Decoded>)
    requires
        about_to_execute(machine, pins, table, Mnemonic::Rts),
        room_to_return(machine, memory),
    ensures
        (System { machine, pins, memory }).turns(table, 5) matches Some(system) && {
            let stack = machine.sp_address();
            let target = bank_address(
                memory[stack - 3] as int,
                join_bytes(memory[stack - 2], memory[stack - 1]) as int,
            );
            &&& system.machine == (Machine {
                pc: target,
                sp: (machine.sp - 4) as u16,
                flags: memory[stack - 4] as u16,
                temp_addr: target,
                state: CPUState::Fetch,
                cycle: 1,
                word: false,
                ..machine
            })
            &&& system.memory == memory
            &&& system.pins.irq == pins.irq
        },
{
    let start = System { machine, pins, memory };
    lemma_return_first(machine, pins, memory, table);
    let one = start.turn(table)->0;
    lemma_return_second(one.machine, one.pins, one.memory, table);
    let two = one.turn(table)->0;
    lemma_return_third(two.machine, two.pins, two.memory, table);
    let three = two.turn(table)->0;
    lemma_return_fourth(three.machine, three.pins, three.memory, table);
    let four = three.turn(table)->0;
    lemma_return_fifth(four.machine, four.pins, four.memory, table);
    let five = four.turn(table)->0;
    assert(start.turns(table, 5) == Some(five)) by {
        reveal_with_fuel(System::turns, 6);
    }
}

/// A call that is followed at once by a return comes back: after the six
/// cycles of the call, the three of the fetch at the routine and the five of
/// the return, the program counter stands behind the operand of the call,
/// the stack pointer where it was before the call, and the status word is its
/// low byte from before.
pub proof fn lemma_call_and_return(
    machine: Machine,
    pins: PinsModel,
    memory: Seq<u8>,
    table: Seq<Decoded>,
)
    requires
        about_to_execute(machine, pins, table, Mnemonic::Jsr),
        room_to_call(machine, memory),
        0 <= operand_address(machine, memory),
        operand_address(machine, memory) + 2 < memory.len(),
        table_entry(
            table,
            memory_after_call(machine, memory)[operand_address(machine, memory)],
        ) matches Ok((found, _)) && found == Mnemonic::Rts,
    ensures
        (System { machine, pins, memory }).turns(table, 14) matches Some(system) && {
            &&& system.machine.pc == machine.pc + 3
            &&& system.machine.sp == machine.sp
            &&& system.machine.sp_page == machine.sp_page
            &&& system.machine.flags == low_byte(machine.flags) as u16
        },
{
    let start = System { machine, pins, memory };
    lemma_call(machine, pins, memory, table);
    let called = start.turns(table, 6)->0;
    lemma_fetch(called.machine, called.pins, called.memory, table);
    let fetched = called.turns(table, 3)->0;
    lemma_return(fetched.machine, fetched.pins, fetched.memory, table);
    lemma_turns_add(start, table, 6, 8);
    lemma_turns_add(called, table, 3, 5);
}

/// A return matches its call at any depth: whatever ran since a call from
/// `caller`, if it left the stack pointer where the call left it and the four
/// bytes that the call pushed as they were, the return leaves the program
/// counter behind the operand of the call, the stack pointer where it was
/// before the call, and the status word as its low byte from before the call.
pub proof fn lemma_return_matches_call(
    caller: Machine,
    before: Seq<u8>,
    machine: Machine,
    pins: PinsModel,
    memory: Seq<u8>,
    table: Seq<Decoded>,
)
    requires
        room_to_call(caller, before),
        about_to_execute(machine, pins, table, Mnemonic::Rts),
        machine.sp == caller.sp + 4,
        machine.sp_page == caller.sp_page,
        memory.len() == before.len(),
        memory[caller.sp_address()] == memory_after_call(caller, before)[caller.sp_address()],
        memory[caller.sp_address() + 1] == memory_after_call(caller, before)[caller.sp_address() + 1],
        memory[caller.sp_address() + 2] == memory_after_call(caller, before)[caller.sp_address() + 2],
        memory[caller.sp_address() + 3] == memory_after_call(caller, before)[caller.sp_address() + 3],
    ensures
        (System { machine, pins, memory }).turns(table, 5) matches Some(system) && {
            &&& system.machine.pc == caller.pc + 3
            &&& system.machine.sp == caller.sp
            &&& system.machine.sp_page == caller.sp_page
            &&& system.machine.flags == low_byte(caller.flags) as u16
        },
{
    lemma_return(machine, pins, memory, table);
}

} // verus!
