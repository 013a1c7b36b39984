//! A move of an immediate operand, from its fetch to its end.

use vstd::prelude::*;
use crate::address::wrap_address;
use crate::bits::{join_bytes, high_byte, low_byte, lemma_join_bytes};
use crate::cpu::{
    AddressingMode, CPUState, Fault, Flag, InterruptStatus, Machine, PinsModel, ReadWrite,
    RegisterReturn, table_entry,
};
use crate::cpu::laws::fetch::lemma_fetch;
use crate::cpu::model::{decode_selector, decide_zn};
use crate::cpu::system::{System, lemma_turns_add};
use crate::flags::{has_flag, with_flag, lemma_with_flag};
use crate::info::{Decoded, Mnemonic};
use crate::metadata::meta_reg0;

verus! {

/// The first turn in which a move of an immediate operand executes: the
/// operand is asked for and served.
proof fn lemma_move_immediate_first(
    machine: Machine,
    pins: PinsModel,
    memory: Seq<u8>,
    table: Seq<Decoded>,
)
    requires
        machine.state == CPUState::Execute,
        machine.cycle == 1,
        0 <= machine.pc,
        machine.pc + 1 < memory.len() <= 0x100_0000,
        table_entry(table, machine.opcode) == Ok::<(Mnemonic, AddressingMode), Fault>(
            (Mnemonic::Mov, AddressingMode::Immediate),
        ),
    ensures
        (System { machine, pins, memory }).turn(table) == Some(
            System {
                machine: Machine {
                    cycle: 2,
                    word: true,
                    int_status: machine.latch(pins).int_status,
                    ..machine
                },
                pins: PinsModel {
                    address: machine.pc,
                    rw: ReadWrite::Read,
                    bus_enable: true,
                    data: join_bytes(memory[machine.pc], memory[machine.pc + 1]),
                    ..pins
                },
                memory,
            },
        ),
{
    reveal(System::turn);
    reveal(Machine::mov);
}

/// The second turn in which a move of an immediate operand executes: the
/// operand is loaded, and the instruction ends.
proof fn lemma_move_immediate_second(
    machine: Machine,
    pins: PinsModel,
    memory: Seq<u8>,
    table: Seq<Decoded>,
)
    requires
        machine.state == CPUState::Execute,
        machine.cycle == 2,
        table_entry(table, machine.opcode) == Ok::<(Mnemonic, AddressingMode), Fault>(
            (Mnemonic::Mov, AddressingMode::Immediate),
        ),
    ensures
        (System { machine, pins, memory }).turn(table) matches Some(system) && {
            &&& system.machine.pc == wrap_address(machine.pc + 2)
            &&& system.machine.flags == decide_zn(machine.flags, pins.data, false)
            &&& system.machine.read(machine.reg0()) == machine.write(
                machine.reg0(),
                pins.data,
            ).read(machine.reg0())
            &&& system.machine.cycle == 1
            &&& system.machine.state == (if machine.latch(pins).int_status
                != InterruptStatus::Idle {
                CPUState::Interrupt
            } else {
                CPUState::Fetch
            })
            &&& system.memory == memory
        },
{
    reveal(System::turn);
    reveal(Machine::mov);
}

/// The two cycles in which a move of an immediate word executes.
proof fn lemma_move_immediate_executes(
    machine: Machine,
    pins: PinsModel,
    memory: Seq<u8>,
    table: Seq<Decoded>,
)
    requires
        machine.state == CPUState::Execute,
        machine.cycle == 1,
        0 <= machine.pc,
        machine.pc + 1 < memory.len() <= 0x100_0000,
        table_entry(table, machine.opcode) == Ok::<(Mnemonic, AddressingMode), Fault>(
            (Mnemonic::Mov, AddressingMode::Immediate),
        ),
    ensures
        (System { machine, pins, memory }).turns(table, 2) matches Some(system) && {
            let operand = join_bytes(memory[machine.pc], memory[machine.pc + 1]);
            &&& system.machine.pc == wrap_address(machine.pc + 2)
            &&& system.machine.flags == decide_zn(machine.flags, operand, false)
            &&& system.machine.read(machine.reg0()) == machine.write(machine.reg0(), operand).read(
                machine.reg0(),
            )
            &&& system.memory == memory
        },
{
    let start = System { machine, pins, memory };
    lemma_move_immediate_first(machine, pins, memory, table);
    let one = start.turn(table)->0;
    lemma_move_immediate_second(one.machine, one.pins, memory, table);
    let two = one.turn(table);
    assert(start.turns(table, 2) == two) by {
        reveal_with_fuel(System::turns, 3);
    }
}

/// A register that was just written holds what was written: all of it in a
/// whole register, its low byte in half a register.
pub proof fn lemma_read_after_write(machine: Machine, selector: u8, data: u16)
    ensures
        machine.write(selector, data).read(selector) == (if selector % 16 < 8 {
            data
        } else {
            (data % 256) as u16
        }),
{
    let word = machine.register(
        match decode_selector(selector) {
            RegisterReturn::Full(name) => name,
            RegisterReturn::High(name) => name,
            RegisterReturn::Low(name) => name,
        },
    );
    lemma_join_bytes(low_byte(data), low_byte(word));
    lemma_join_bytes(high_byte(word), low_byte(data));
}

/// A move of an immediate word, from the fetch of its opcode to its end,
/// takes five cycles. It leaves the operand in the register that the
/// instruction names (its low byte, where that is half a register). Zero is
/// set afterwards exactly where the operand is zero, and Negative exactly
/// where its top bit is set, whatever they were before; every other flag
/// stays as it was. The program counter stands behind the five bytes of the
/// instruction: three of the opcode and the metadata word, two of the operand.
pub proof fn lemma_move_immediate(
    machine: Machine,
    pins: PinsModel,
    memory: Seq<u8>,
    table: Seq<Decoded>,
    flag: Flag,
)
    requires
        machine.state == CPUState::Fetch,
        machine.cycle == 1,
        0 <= machine.pc,
        machine.pc + 4 < memory.len() <= 0x100_0000,
        table_entry(table, memory[machine.pc]) == Ok::<(Mnemonic, AddressingMode), Fault>(
            (Mnemonic::Mov, AddressingMode::Immediate),
        ),
    ensures
        (System { machine, pins, memory }).turns(table, 5) matches Some(system) && {
            let selector = meta_reg0(join_bytes(memory[machine.pc + 1], memory[machine.pc + 2]));
            let operand = join_bytes(memory[machine.pc + 3], memory[machine.pc + 4]);
            &&& system.machine.pc == wrap_address(machine.pc + 5)
            &&& system.machine.read(selector) == (if selector < 8 {
                operand
            } else {
                (operand % 256) as u16
            })
            &&& has_flag(system.machine.flags, flag) == (if flag == Flag::Z {
                operand == 0
            } else if flag == Flag::N {
                operand >= 0x8000
            } else {
                has_flag(machine.flags, flag)
            })
            &&& system.memory == memory
        },
{
    let operand = join_bytes(memory[machine.pc + 3], memory[machine.pc + 4]);
    let start = System { machine, pins, memory };
    lemma_fetch(machine, pins, memory, table);
    let fetched = start.turns(table, 3)->0;
    lemma_move_immediate_executes(fetched.machine, fetched.pins, memory, table);
    lemma_turns_add(start, table, 3, 2);
    lemma_read_after_write(fetched.machine, fetched.machine.reg0(), operand);
    let flags = machine.flags;
    lemma_with_flag(flags, Flag::Z, operand == 0, flag);
    lemma_with_flag(with_flag(flags, Flag::Z, operand == 0), Flag::N, operand >= 0x8000, flag);
}

} // verus!
