//! The fetch: the three cycles that bring an instruction into the engine.

use vstd::prelude::*;
use crate::address::wrap_address;
use crate::bits::{join_bytes, low_byte};
use crate::cpu::{CPUState, Machine, PinsModel, ReadWrite};
use crate::cpu::system::System;
use crate::info::Decoded;

verus! {

/// The first turn of a fetch: the opcode byte is asked for and served.
proof fn lemma_fetch_first(machine: Machine, pins: PinsModel, memory: Seq<u8>, table: Seq<Decoded>)
    requires
        machine.state == CPUState::Fetch,
        machine.cycle == 1,
        0 <= machine.pc < memory.len() <= 0x100_0000,
    ensures
        (System { machine, pins, memory }).turn(table) == Some(
            System {
                machine: Machine {
                    cycle: 2,
                    word: false,
                    int_status: machine.latch(pins).int_status,
                    ..machine
                },
                pins: PinsModel {
                    address: machine.pc,
                    rw: ReadWrite::Read,
                    bus_enable: true,
                    data: memory[machine.pc] as u16,
                    ..pins
                },
                memory,
            },
        ),
{
    reveal(System::turn);
}

/// The second turn of a fetch: the opcode is taken, and the metadata word is
/// asked for and served.
proof fn lemma_fetch_second(machine: Machine, pins: PinsModel, memory: Seq<u8>, table: Seq<Decoded>)
    requires
        machine.state == CPUState::Fetch,
        machine.cycle == 2,
        pins.bus_enable,
        0 <= machine.pc,
        machine.pc + 2 < memory.len() <= 0x100_0000,
    ensures
        (System { machine, pins, memory }).turn(table) == Some(
            System {
                machine: Machine {
                    cycle: 3,
                    word: true,
                    opcode: low_byte(pins.data),
                    pc: machine.pc + 1,
                    int_status: machine.latch(pins).int_status,
                    ..machine
                },
                pins: PinsModel {
                    address: machine.pc + 1,
                    rw: ReadWrite::Read,
                    data: join_bytes(memory[machine.pc + 1], memory[machine.pc + 2]),
                    ..pins
                },
                memory,
            },
        ),
{
    reveal(System::turn);
}

/// The third turn of a fetch: the metadata word is taken, and the engine
/// goes on to execute.
proof fn lemma_fetch_third(machine: Machine, pins: PinsModel, memory: Seq<u8>, table: Seq<Decoded>)
    requires
        machine.state == CPUState::Fetch,
        machine.cycle == 3,
    ensures
        (System { machine, pins, memory }).turn(table) == Some(
            System {
                machine: Machine {
                    cycle: 1,
                    state: CPUState::Execute,
                    metadata: pins.data,
                    pc: wrap_address(machine.pc + 2),
                    int_status: machine.latch(pins).int_status,
                    ..machine
                },
                pins: PinsModel { bus_enable: false, ..pins },
                memory,
            },
        ),
{
    reveal(System::turn);
}

/// A fetch takes three cycles. It leaves the opcode and the metadata word of
/// the instruction at the program counter in the engine, the program counter
/// behind these three bytes, and the engine about to execute in cycle one,
/// with the bus released. Nothing else changes but the interrupt latch.
pub proof fn lemma_fetch(machine: Machine, pins: PinsModel, memory: Seq<u8>, table: Seq<Decoded>)
    requires
        machine.state == CPUState::Fetch,
        machine.cycle == 1,
        0 <= machine.pc,
        machine.pc + 2 < memory.len() <= 0x100_0000,
    ensures
        (System { machine, pins, memory }).turns(table, 3) matches Some(system) && {
            &&& system.machine == (Machine {
                state: CPUState::Execute,
                cycle: 1,
                opcode: memory[machine.pc],
                metadata: join_bytes(memory[machine.pc + 1], memory[machine.pc + 2]),
                pc: wrap_address(machine.pc + 3),
                word: true,
                int_status: machine.latch(pins).int_status,
                ..machine
            })
            &&& system.pins.irq == pins.irq
            &&& !system.pins.bus_enable
            &&& system.pins.io_enable == pins.io_enable
            &&& system.memory == memory
        },
{
    let start = System { machine, pins, memory };
    lemma_fetch_first(machine, pins, memory, table);
    let one = start.turn(table)->0;
    lemma_fetch_second(one.machine, one.pins, memory, table);
    let two = one.turn(table)->0;
    lemma_fetch_third(two.machine, two.pins, memory, table);
    let three = two.turn(table);
    assert(start.turns(table, 3) == three) by {
        reveal_with_fuel(System::turns, 4);
    }
}

} // verus!
