//! The order of the cycles: an engine that is driven from a reset never
//! meets a cycle that its state or its instruction does not have.

use vstd::prelude::*;
use crate::cpu::{
    AddressingMode, CPUState, Fault, Flag, InterruptStatus, Machine, PinsModel, Step,
    table_entry,
};
use crate::cpu::instructions::logic::Logic;
use crate::info::{Decoded, Mnemonic};

verus! {

/// How many cycles an instruction with an operand takes: two with an
/// immediate operand, one with a register, four with an operand in memory.
pub open spec fn operand_cycles(mode: AddressingMode) -> Option<int> {
    match mode {
        AddressingMode::Immediate => Some(2),
        AddressingMode::Register => Some(1),
        AddressingMode::Absolute => Some(4),
        AddressingMode::Implied => None,
    }
}

/// How many cycles a store takes.
pub open spec fn store_cycles(mode: AddressingMode) -> Option<int> {
    match mode {
        AddressingMode::Absolute => Some(4),
        _ => None,
    }
}

/// How many cycles an instruction takes that changes its operand in place:
/// one in a register, five in memory.
pub open spec fn update_cycles(mode: AddressingMode) -> Option<int> {
    match mode {
        AddressingMode::Register => Some(1),
        AddressingMode::Absolute => Some(5),
        _ => None,
    }
}

/// How many cycles a push takes: three with an immediate operand, two with
/// a register.
pub open spec fn push_cycles(mode: AddressingMode) -> Option<int> {
    match mode {
        AddressingMode::Immediate => Some(3),
        AddressingMode::Register => Some(2),
        _ => None,
    }
}

/// How many cycles the instruction `mnemonic` takes in the addressing mode
/// `mode`; `None` where it does not have the mode.
pub open spec fn cycles_of(mnemonic: Mnemonic, mode: AddressingMode) -> Option<int> {
    match mnemonic {
        Mnemonic::Mov
        | Mnemonic::Movb
        | Mnemonic::Add
        | Mnemonic::Addb
        | Mnemonic::Sub
        | Mnemonic::Subb
        | Mnemonic::Cmp
        | Mnemonic::Cmpb
        | Mnemonic::And
        | Mnemonic::Xor
        | Mnemonic::Xorb => operand_cycles(mode),
        Mnemonic::St | Mnemonic::Stb => store_cycles(mode),
        Mnemonic::Dec
        | Mnemonic::Decb
        | Mnemonic::Sbl
        | Mnemonic::Sblb
        | Mnemonic::Rol => update_cycles(mode),
        Mnemonic::Psh | Mnemonic::Pshb => push_cycles(mode),
        Mnemonic::Pop => Some(2),
        Mnemonic::In | Mnemonic::Out => Some(3),
        Mnemonic::Clc | Mnemonic::Cli | Mnemonic::Clv | Mnemonic::Sei | Mnemonic::Hlt => Some(1),
        Mnemonic::Jsr => Some(6),
        Mnemonic::Rts => Some(5),
        _ => Some(3),
    }
}

/// Whether a step of an instruction that takes `cycles` cycles is in order:
/// an instruction without the addressing mode faults with that; any other,
/// in one of its cycles, does not fault. Before its last cycle it leaves the
/// state and the cycle count alone; its last cycle halts the engine or ends
/// the instruction. The instruction and the interrupt latch stay.
pub open spec fn in_order(before: Machine, step: Step, cycles: Option<int>) -> bool {
    match cycles {
        None => step == Err::<(Machine, PinsModel), Fault>(Fault::BadMode),
        Some(last) => 1 <= before.cycle <= last ==> (step matches Ok((after, pins)) && {
            &&& after.int_status == before.int_status
            &&& after.opcode == before.opcode
            &&& after.metadata == before.metadata
            &&& if before.cycle < last {
                after.cycle == before.cycle && after.state == before.state
            } else {
                ||| after.cycle == before.cycle && after.state == CPUState::Halt
                ||| after.cycle == 0 && !pins.bus_enable && after.state == (if before.int_status
                    != InterruptStatus::Idle {
                    CPUState::Interrupt
                } else if before.state == CPUState::Halt {
                    CPUState::Halt
                } else {
                    CPUState::Fetch
                })
            }
        }),
    }
}

/// Whether two machines are in the same state, at the same cycle, with the
/// same instruction and the same interrupt latch.
pub open spec fn same_control(one: Machine, other: Machine) -> bool {
    &&& one.state == other.state
    &&& one.cycle == other.cycle
    &&& one.int_status == other.int_status
    &&& one.opcode == other.opcode
    &&& one.metadata == other.metadata
    &&& one.pc == other.pc
}

proof fn lemma_move_in_order(
    machine: Machine,
    pins: PinsModel,
    mode: AddressingMode,
    byte: bool,
)
    ensures
        in_order(machine, machine.mov(pins, mode, byte), operand_cycles(mode)),
{
    reveal(Machine::mov);
}

/// An addition leaves the state, the counts and the instruction alone.
proof fn lemma_add_keeps_control(machine: Machine, operand: u16, byte: bool)
    ensures
        same_control(machine, machine.add_to_first(operand, byte)),
{
}

proof fn lemma_add_in_order(
    machine: Machine,
    pins: PinsModel,
    mode: AddressingMode,
    byte: bool,
)
    ensures
        in_order(machine, machine.add(pins, mode, byte), operand_cycles(mode)),
{
    reveal(Machine::add);
    lemma_add_keeps_control(machine, pins.data, byte);
    lemma_add_keeps_control(machine, machine.read(machine.reg1()), true);
    match mode {
        AddressingMode::Immediate => {},
        AddressingMode::Register => {},
        AddressingMode::Absolute => {},
        AddressingMode::Implied => {},
    }
}

proof fn lemma_sub_in_order(
    machine: Machine,
    pins: PinsModel,
    mode: AddressingMode,
    byte: bool,
)
    ensures
        in_order(machine, machine.sub(pins, mode, byte), operand_cycles(mode)),
{
    reveal(Machine::sub);
}

proof fn lemma_compare_in_order(
    machine: Machine,
    pins: PinsModel,
    mode: AddressingMode,
    byte: bool,
)
    ensures
        in_order(machine, machine.compare(pins, mode, byte), operand_cycles(mode)),
{
    reveal(Machine::compare);
}

proof fn lemma_logic_in_order(
    machine: Machine,
    pins: PinsModel,
    op: Logic,
    mode: AddressingMode,
    byte: bool,
)
    ensures
        in_order(machine, machine.logic(pins, op, mode, byte), operand_cycles(mode)),
{
    reveal(Machine::logic);
}

proof fn lemma_store_in_order(
    machine: Machine,
    pins: PinsModel,
    mode: AddressingMode,
    byte: bool,
)
    ensures
        in_order(machine, machine.store(pins, mode, byte), store_cycles(mode)),
{
    reveal(Machine::store);
}

proof fn lemma_dec_in_order(
    machine: Machine,
    pins: PinsModel,
    mode: AddressingMode,
    byte: bool,
)
    ensures
        in_order(machine, machine.dec(pins, mode, byte), update_cycles(mode)),
{
    reveal(Machine::dec);
}

proof fn lemma_shift_in_order(
    machine: Machine,
    pins: PinsModel,
    mode: AddressingMode,
    byte: bool,
    rotate: bool,
)
    ensures
        in_order(machine, machine.shift_left(pins, mode, byte, rotate), update_cycles(mode)),
{
    reveal(Machine::shift_left);
}

proof fn lemma_push_in_order(
    machine: Machine,
    pins: PinsModel,
    mode: AddressingMode,
    byte: bool,
)
    ensures
        in_order(machine, machine.push(pins, mode, byte), push_cycles(mode)),
{
    reveal(Machine::push);
}

proof fn lemma_pop_in_order(
    machine: Machine,
    pins: PinsModel,
)
    ensures
        in_order(machine, machine.pop(pins), Some(2int)),
{
    reveal(Machine::pop);
}

proof fn lemma_input_in_order(
    machine: Machine,
    pins: PinsModel,
)
    ensures
        in_order(machine, machine.input(pins), Some(3int)),
{
    reveal(Machine::input);
}

proof fn lemma_output_in_order(
    machine: Machine,
    pins: PinsModel,
)
    ensures
        in_order(machine, machine.output(pins), Some(3int)),
{
    reveal(Machine::output);
}

proof fn lemma_flag_in_order(
    machine: Machine,
    pins: PinsModel,
    flag: Flag,
    on: bool,
)
    ensures
        in_order(machine, machine.change_flag(pins, flag, on), Some(1int)),
{
    reveal(Machine::change_flag);
}

proof fn lemma_halt_in_order(
    machine: Machine,
    pins: PinsModel,
)
    ensures
        in_order(machine, machine.halt(pins), Some(1int)),
{
    reveal(Machine::halt);
}

proof fn lemma_jump_in_order(
    machine: Machine,
    pins: PinsModel,
)
    ensures
        in_order(machine, machine.jump(pins), Some(3int)),
{
    reveal(Machine::jump);
}

proof fn lemma_branch_in_order(
    machine: Machine,
    pins: PinsModel,
    flag: Flag,
    wanted: bool,
)
    ensures
        in_order(machine, machine.branch(pins, flag, wanted), Some(3int)),
{
    reveal(Machine::branch);
}

proof fn lemma_call_in_order(
    machine: Machine,
    pins: PinsModel,
)
    ensures
        in_order(machine, machine.call(pins), Some(6int)),
{
    reveal(Machine::call);
}

proof fn lemma_return_in_order(
    machine: Machine,
    pins: PinsModel,
)
    ensures
        in_order(machine, machine.ret(pins), Some(5int)),
{
    reveal(Machine::ret);
}

/// Every instruction is in order in every addressing mode.
pub proof fn lemma_instruction_in_order(
    machine: Machine,
    pins: PinsModel,
    mnemonic: Mnemonic,
    mode: AddressingMode,
)
    ensures
        in_order(machine, machine.dispatch(pins, mnemonic, mode), cycles_of(mnemonic, mode)),
{
    match mnemonic {
        Mnemonic::Mov => lemma_move_in_order(machine, pins, mode, false),
        Mnemonic::Movb => lemma_move_in_order(machine, pins, mode, true),
        Mnemonic::St => lemma_store_in_order(machine, pins, mode, false),
        Mnemonic::Stb => lemma_store_in_order(machine, pins, mode, true),
        Mnemonic::And => lemma_logic_in_order(machine, pins, Logic::And, mode, false),
        Mnemonic::Xor => lemma_logic_in_order(machine, pins, Logic::Xor, mode, false),
        Mnemonic::Xorb => lemma_logic_in_order(machine, pins, Logic::Xor, mode, true),
        Mnemonic::Psh => lemma_push_in_order(machine, pins, mode, false),
        Mnemonic::Pshb => lemma_push_in_order(machine, pins, mode, true),
        Mnemonic::Pop => lemma_pop_in_order(machine, pins),
        Mnemonic::Add => lemma_add_in_order(machine, pins, mode, false),
        Mnemonic::Addb => lemma_add_in_order(machine, pins, mode, true),
        Mnemonic::Sub => lemma_sub_in_order(machine, pins, mode, false),
        Mnemonic::Subb => lemma_sub_in_order(machine, pins, mode, true),
        Mnemonic::Cmp => lemma_compare_in_order(machine, pins, mode, false),
        Mnemonic::Cmpb => lemma_compare_in_order(machine, pins, mode, true),
        Mnemonic::Dec => lemma_dec_in_order(machine, pins, mode, false),
        Mnemonic::Decb => lemma_dec_in_order(machine, pins, mode, true),
        Mnemonic::Sbl => lemma_shift_in_order(machine, pins, mode, false, false),
        Mnemonic::Sblb => lemma_shift_in_order(machine, pins, mode, true, false),
        Mnemonic::Rol => lemma_shift_in_order(machine, pins, mode, false, true),
        Mnemonic::Clc => lemma_flag_in_order(machine, pins, Flag::C, false),
        Mnemonic::Cli => lemma_flag_in_order(machine, pins, Flag::I, false),
        Mnemonic::Clv => lemma_flag_in_order(machine, pins, Flag::O, false),
        Mnemonic::Sei => lemma_flag_in_order(machine, pins, Flag::I, true),
        Mnemonic::Jmp => lemma_jump_in_order(machine, pins),
        Mnemonic::Jsr => lemma_call_in_order(machine, pins),
        Mnemonic::Rts => lemma_return_in_order(machine, pins),
        Mnemonic::Biz => lemma_branch_in_order(machine, pins, Flag::Z, true),
        Mnemonic::Bin => lemma_branch_in_order(machine, pins, Flag::N, true),
        Mnemonic::Bic => lemma_branch_in_order(machine, pins, Flag::C, true),
        Mnemonic::Bio => lemma_branch_in_order(machine, pins, Flag::O, true),
        Mnemonic::Bil => lemma_branch_in_order(machine, pins, Flag::L, true),
        Mnemonic::Big => lemma_branch_in_order(machine, pins, Flag::G, true),
        Mnemonic::Bnz => lemma_branch_in_order(machine, pins, Flag::Z, false),
        Mnemonic::Bnn => lemma_branch_in_order(machine, pins, Flag::N, false),
        Mnemonic::Bnc => lemma_branch_in_order(machine, pins, Flag::C, false),
        Mnemonic::Bno => lemma_branch_in_order(machine, pins, Flag::O, false),
        Mnemonic::Bnl => lemma_branch_in_order(machine, pins, Flag::L, false),
        Mnemonic::Bng => lemma_branch_in_order(machine, pins, Flag::G, false),
        Mnemonic::In => lemma_input_in_order(machine, pins),
        Mnemonic::Out => lemma_output_in_order(machine, pins),
        Mnemonic::Hlt => lemma_halt_in_order(machine, pins),
    }
}

/// Every instruction takes at least one cycle.
proof fn lemma_cycles_of(mnemonic: Mnemonic, mode: AddressingMode)
    ensures
        cycles_of(mnemonic, mode) matches Some(last) ==> 1 <= last <= 6,
{
}

/// Whether the cycle count of the engine is one that its state, or the
/// instruction that it executes, has: one to three in a reset or a fetch,
/// one to nine on the way into an interrupt routine, where an interrupt
/// waits, and one to the number of the instruction's cycles while it
/// executes. An instruction that the opcode table does not know, or knows
/// in an addressing mode that it does not have, has no cycles to count.
pub open spec fn in_sequence(machine: Machine, table: Seq<Decoded>) -> bool {
    match machine.state {
        CPUState::Reset | CPUState::Fetch => 1 <= machine.cycle <= 3,
        CPUState::Interrupt => machine.int_status != InterruptStatus::Idle && 1 <= machine.cycle
            <= 9,
        CPUState::Execute => match table_entry(table, machine.opcode) {
            Ok((mnemonic, mode)) => match cycles_of(mnemonic, mode) {
                Some(last) => 1 <= machine.cycle <= last,
                None => true,
            },
            Err(_) => true,
        },
        CPUState::Halt => true,
    }
}

/// The engine is in sequence when it is switched on and after every reset.
pub proof fn lemma_reset_in_sequence(machine: Machine, table: Seq<Decoded>)
    ensures
        in_sequence(Machine::power_on(), table),
        in_sequence(machine.reset(), table),
{
}

/// An engine in sequence stays in sequence, and never meets a cycle out of
/// range: a cycle either succeeds, and leaves the engine in sequence, or it
/// faults while executing, and then with the fault that the opcode table
/// holds for the opcode, or because the instruction does not have the
/// addressing mode that the table gives it.
pub proof fn lemma_in_sequence(
    machine: Machine,
    pins: PinsModel,
    table: Seq<Decoded>,
    leave_on_halt: bool,
)
    requires
        in_sequence(machine, table),
    ensures
        match machine.cycle(pins, table, leave_on_halt) {
            Ok((after, _, _)) => in_sequence(after, table),
            Err(fault) => {
                &&& machine.state == CPUState::Execute
                &&& match table_entry(table, machine.opcode) {
                    Ok((mnemonic, mode)) => fault == Fault::BadMode && cycles_of(mnemonic, mode)
                        is None,
                    Err(entry) => fault == entry,
                }
            },
        },
{
    let latched = machine.latch(pins);
    match latched.state {
        CPUState::Execute => {
            match table_entry(table, latched.opcode) {
                Ok((mnemonic, mode)) => {
                    lemma_instruction_in_order(
                        latched,
                        PinsModel { bus_enable: true, ..pins },
                        mnemonic,
                        mode,
                    );
                    lemma_cycles_of(mnemonic, mode);
                },
                Err(_) => {},
            }
        },
        CPUState::Fetch => {
            match latched.fetch_step(pins) {
                Ok((after, _)) => {
                    match table_entry(table, after.opcode) {
                        Ok((mnemonic, mode)) => {
                            lemma_cycles_of(mnemonic, mode);
                        },
                        Err(_) => {},
                    }
                },
                Err(_) => {},
            }
        },
        _ => {},
    }
}

} // verus!
