//! An interrupt waits for the end of the instruction: no step but the last of
//! an instruction, or of the reset, leads into the interrupt state.

use vstd::prelude::*;
use crate::cpu::{
    AddressingMode, CPUState, Continuation, Flag, InterruptStatus, Machine, PinsModel, Step,
    table_entry,
};
use crate::cpu::instructions::logic::Logic;
use crate::info::{Decoded, Mnemonic};

verus! {

/// Whether a step either left the state, the interrupt latch and the cycle
/// count alone (at most halting the engine), or was the end of an instruction:
/// the cycle count starts over, the bus is released, and the engine goes on
/// to the interrupt that waits, stays halted, or fetches.
pub open spec fn stays_or_ends(before: Machine, step: Step) -> bool {
    step matches Ok((after, pins)) ==> {
        &&& after.int_status == before.int_status
        &&& {
            ||| after.cycle == before.cycle && (after.state == before.state || after.state
                == CPUState::Halt)
            ||| after.cycle == 0 && !pins.bus_enable && after.state == (if before.int_status
                != InterruptStatus::Idle {
                CPUState::Interrupt
            } else if before.state == CPUState::Halt {
                CPUState::Halt
            } else {
                CPUState::Fetch
            })
        }
    }
}

proof fn lemma_resolver_stays_or_ends(
    machine: Machine,
    pins: PinsModel,
    byte: bool,
    then: Option<Continuation>,
)
    ensures
        stays_or_ends(machine, machine.mode_absolute(pins, byte, then)),
{
}

proof fn lemma_move_stays_or_ends(
    machine: Machine,
    pins: PinsModel,
    mode: AddressingMode,
    byte: bool,
)
    ensures
        stays_or_ends(machine, machine.mov(pins, mode, byte)),
{
    reveal(Machine::mov);
    lemma_resolver_stays_or_ends(machine, pins, byte, Some(Continuation::Data));
}

proof fn lemma_store_stays_or_ends(
    machine: Machine,
    pins: PinsModel,
    mode: AddressingMode,
    byte: bool,
)
    ensures
        stays_or_ends(machine, machine.store(pins, mode, byte)),
{
    reveal(Machine::store);
    lemma_resolver_stays_or_ends(machine, pins, byte, Some(Continuation::Store));
}

proof fn lemma_push_stays_or_ends(
    machine: Machine,
    pins: PinsModel,
    mode: AddressingMode,
    byte: bool,
)
    ensures
        stays_or_ends(machine, machine.push(pins, mode, byte)),
{
    reveal(Machine::push);
}

proof fn lemma_pop_stays_or_ends(
    machine: Machine,
    pins: PinsModel,
)
    ensures
        stays_or_ends(machine, machine.pop(pins)),
{
    reveal(Machine::pop);
}

proof fn lemma_input_stays_or_ends(
    machine: Machine,
    pins: PinsModel,
)
    ensures
        stays_or_ends(machine, machine.input(pins)),
{
    reveal(Machine::input);
}

proof fn lemma_output_stays_or_ends(
    machine: Machine,
    pins: PinsModel,
)
    ensures
        stays_or_ends(machine, machine.output(pins)),
{
    reveal(Machine::output);
}

proof fn lemma_add_stays_or_ends(
    machine: Machine,
    pins: PinsModel,
    mode: AddressingMode,
    byte: bool,
)
    ensures
        stays_or_ends(machine, machine.add(pins, mode, byte)),
{
    reveal(Machine::add);
    lemma_resolver_stays_or_ends(machine, pins, byte, Some(Continuation::Data));
}

proof fn lemma_sub_stays_or_ends(
    machine: Machine,
    pins: PinsModel,
    mode: AddressingMode,
    byte: bool,
)
    ensures
        stays_or_ends(machine, machine.sub(pins, mode, byte)),
{
    reveal(Machine::sub);
    lemma_resolver_stays_or_ends(machine, pins, byte, Some(Continuation::Data));
}

proof fn lemma_compare_stays_or_ends(
    machine: Machine,
    pins: PinsModel,
    mode: AddressingMode,
    byte: bool,
)
    ensures
        stays_or_ends(machine, machine.compare(pins, mode, byte)),
{
    reveal(Machine::compare);
    lemma_resolver_stays_or_ends(machine, pins, byte, Some(Continuation::Data));
}

proof fn lemma_dec_stays_or_ends(
    machine: Machine,
    pins: PinsModel,
    mode: AddressingMode,
    byte: bool,
)
    ensures
        stays_or_ends(machine, machine.dec(pins, mode, byte)),
{
    reveal(Machine::dec);
    lemma_resolver_stays_or_ends(machine, pins, byte, Some(Continuation::Data));
}

proof fn lemma_logic_stays_or_ends(
    machine: Machine,
    pins: PinsModel,
    op: Logic,
    mode: AddressingMode,
    byte: bool,
)
    ensures
        stays_or_ends(machine, machine.logic(pins, op, mode, byte)),
{
    reveal(Machine::logic);
    lemma_resolver_stays_or_ends(machine, pins, byte, Some(Continuation::Data));
}

proof fn lemma_shift_stays_or_ends(
    machine: Machine,
    pins: PinsModel,
    mode: AddressingMode,
    byte: bool,
    rotate: bool,
)
    ensures
        stays_or_ends(machine, machine.shift_left(pins, mode, byte, rotate)),
{
    reveal(Machine::shift_left);
    lemma_resolver_stays_or_ends(machine, pins, byte, Some(Continuation::Data));
}

proof fn lemma_controls_stay_or_end(machine: Machine, pins: PinsModel, flag: Flag, on: bool)
    ensures
        stays_or_ends(machine, machine.change_flag(pins, flag, on)),
        stays_or_ends(machine, machine.halt(pins)),
        stays_or_ends(machine, machine.jump(pins)),
        stays_or_ends(machine, machine.call(pins)),
        stays_or_ends(machine, machine.ret(pins)),
        stays_or_ends(machine, machine.branch(pins, flag, on)),
{
    reveal(Machine::change_flag);
    reveal(Machine::halt);
    reveal(Machine::jump);
    reveal(Machine::call);
    reveal(Machine::ret);
    reveal(Machine::branch);
    lemma_resolver_stays_or_ends(machine, pins, false, Some(Continuation::Jump));
    lemma_resolver_stays_or_ends(machine, pins, false, Some(Continuation::Call));
    lemma_resolver_stays_or_ends(machine, pins, false, None);
}

/// Every cycle of every instruction either leaves the state and the interrupt
/// latch alone or is the end of the instruction.
pub proof fn lemma_instruction_stays_or_ends(
    machine: Machine,
    pins: PinsModel,
    mnemonic: Mnemonic,
    mode: AddressingMode,
)
    ensures
        stays_or_ends(machine, machine.dispatch(pins, mnemonic, mode)),
{
    lemma_move_stays_or_ends(machine, pins, mode, false);
    lemma_move_stays_or_ends(machine, pins, mode, true);
    lemma_store_stays_or_ends(machine, pins, mode, false);
    lemma_store_stays_or_ends(machine, pins, mode, true);
    lemma_push_stays_or_ends(machine, pins, mode, false);
    lemma_push_stays_or_ends(machine, pins, mode, true);
    lemma_pop_stays_or_ends(machine, pins);
    lemma_input_stays_or_ends(machine, pins);
    lemma_output_stays_or_ends(machine, pins);
    lemma_add_stays_or_ends(machine, pins, mode, false);
    lemma_add_stays_or_ends(machine, pins, mode, true);
    lemma_sub_stays_or_ends(machine, pins, mode, false);
    lemma_sub_stays_or_ends(machine, pins, mode, true);
    lemma_compare_stays_or_ends(machine, pins, mode, false);
    lemma_compare_stays_or_ends(machine, pins, mode, true);
    lemma_dec_stays_or_ends(machine, pins, mode, false);
    lemma_dec_stays_or_ends(machine, pins, mode, true);
    lemma_logic_stays_or_ends(machine, pins, Logic::And, mode, false);
    lemma_logic_stays_or_ends(machine, pins, Logic::Xor, mode, false);
    lemma_logic_stays_or_ends(machine, pins, Logic::Xor, mode, true);
    lemma_shift_stays_or_ends(machine, pins, mode, false, false);
    lemma_shift_stays_or_ends(machine, pins, mode, true, false);
    lemma_shift_stays_or_ends(machine, pins, mode, false, true);
    lemma_controls_stay_or_end(machine, pins, Flag::C, false);
    lemma_controls_stay_or_end(machine, pins, Flag::I, false);
    lemma_controls_stay_or_end(machine, pins, Flag::O, false);
    lemma_controls_stay_or_end(machine, pins, Flag::I, true);
    lemma_controls_stay_or_end(machine, pins, Flag::Z, true);
    lemma_controls_stay_or_end(machine, pins, Flag::N, true);
    lemma_controls_stay_or_end(machine, pins, Flag::C, true);
    lemma_controls_stay_or_end(machine, pins, Flag::O, true);
    lemma_controls_stay_or_end(machine, pins, Flag::L, true);
    lemma_controls_stay_or_end(machine, pins, Flag::G, true);
    lemma_controls_stay_or_end(machine, pins, Flag::Z, false);
    lemma_controls_stay_or_end(machine, pins, Flag::N, false);
    lemma_controls_stay_or_end(machine, pins, Flag::L, false);
    lemma_controls_stay_or_end(machine, pins, Flag::G, false);
}

/// An interrupt request that is latched while an instruction executes takes
/// effect only at the end of the instruction. In a cycle that executes, the
/// request that the latch holds after the lines were sampled is kept; and
/// the engine is in the interrupt state afterwards only if this cycle was the
/// instruction's last: the cycle count has started over and the bus is
/// released.
pub proof fn lemma_interrupt_waits(
    machine: Machine,
    pins: PinsModel,
    table: Seq<Decoded>,
    leave_on_halt: bool,
)
    requires
        machine.state == CPUState::Execute,
    ensures
        machine.cycle(pins, table, leave_on_halt) matches Ok((after, out, _)) ==> {
            &&& after.int_status == machine.latch(pins).int_status
            &&& after.state == CPUState::Interrupt ==> {
                &&& after.int_status != InterruptStatus::Idle
                &&& after.cycle == 1
                &&& !out.bus_enable
            }
            &&& after.state == CPUState::Fetch ==> {
                &&& after.int_status == InterruptStatus::Idle
                &&& after.cycle == 1
                &&& !out.bus_enable
            }
        },
{
    let latched = machine.latch(pins);
    match table_entry(table, latched.opcode) {
        Ok((mnemonic, mode)) => {
            lemma_instruction_stays_or_ends(
                latched,
                PinsModel { bus_enable: true, ..pins },
                mnemonic,
                mode,
            );
        },
        Err(_) => {},
    }
}

} // verus!
