//! Calls inside calls: routines that call one another to any depth come back
//! to where the first call was made.

use vstd::prelude::*;
use crate::address::bank_of;
use crate::bits::join_bytes;
use crate::cpu::{CPUState, InterruptStatus, Machine, PinsModel, table_entry};
use crate::cpu::laws::calls::{lemma_call, lemma_return, operand_address};
use crate::cpu::laws::fetch::lemma_fetch;
use crate::cpu::system::{System, lemma_turns_add};
use crate::info::{Decoded, Mnemonic};

verus! {

/// The address that a call at `at` goes to: that of its operand, which lies
/// behind the three bytes of the instruction, with the metadata word of the
/// instruction and the general registers of `machine`.
#[verifier::opaque]
pub open spec fn call_target(machine: Machine, memory: Seq<u8>, at: int) -> int {
    operand_address(
        Machine {
            ra: machine.ra,
            rb: machine.rb,
            rc: machine.rc,
            rd: machine.rd,
            metadata: join_bytes(memory[at + 1], memory[at + 2]),
            pc: at + 3,
            ..Machine::power_on()
        },
        memory,
    )
}

/// Whether a return lies at `at`.
pub open spec fn return_at(table: Seq<Decoded>, memory: Seq<u8>, at: int) -> bool {
    &&& 0 <= at
    &&& at + 2 < memory.len()
    &&& table_entry(table, memory[at]) matches Ok((found, _)) && found == Mnemonic::Rts
}

/// Whether a call to `target` lies at `at`, with a return behind it.
pub open spec fn call_at(
    table: Seq<Decoded>,
    memory: Seq<u8>,
    machine: Machine,
    at: int,
    target: int,
) -> bool {
    &&& 0 <= at
    &&& at + 8 < memory.len()
    &&& table_entry(table, memory[at]) matches Ok((found, _)) && found == Mnemonic::Jsr
    &&& call_target(machine, memory, at) == target
    &&& return_at(table, memory, at + 6)
}

/// Whether the routines at the addresses `routines`, from number `from` on,
/// nest: each but the last is a call of the next and a return, the last is a
/// return alone.
pub open spec fn nested(
    table: Seq<Decoded>,
    memory: Seq<u8>,
    machine: Machine,
    routines: Seq<int>,
    from: int,
) -> bool
    decreases routines.len() - from,
{
    if from < 0 || from >= routines.len() {
        false
    } else if from == routines.len() - 1 {
        return_at(table, memory, routines[from])
    } else {
        &&& call_at(table, memory, machine, routines[from], routines[from + 1])
        &&& nested(table, memory, machine, routines, from + 1)
    }
}

/// Whether none of the routines from number `from` on, each taken as nine
/// bytes, reaches into the addresses `low .. high`.
pub open spec fn code_outside(routines: Seq<int>, from: int, low: int, high: int) -> bool {
    forall|i: int|
        from <= i < routines.len() ==> #[trigger] routines[i] + 9 <= low || routines[i] >= high
}

/// Whether two memories differ at most at the addresses `low .. high`.
pub open spec fn same_outside(one: Seq<u8>, other: Seq<u8>, low: int, high: int) -> bool {
    &&& one.len() == other.len()
    &&& forall|a: int| 0 <= a < one.len() && !(low <= a < high) ==> #[trigger] one[a] == other[a]
}

/// How many cycles routines that nest `depth` calls take, from the fetch of
/// the first to the end of its return: eight for a return alone, seventeen
/// more for each call around it.
pub open spec fn cycles_nested(depth: nat) -> nat {
    8 + 17 * depth
}

/// Whether the engine is about to fetch, with no interrupt waiting or asked
/// for.
pub open spec fn about_to_fetch(machine: Machine, pins: PinsModel) -> bool {
    &&& machine.state == CPUState::Fetch
    &&& machine.cycle == 1
    &&& machine.int_status == InterruptStatus::Idle
    &&& !pins.irq.req
    &&& !pins.irq.nmi
}

/// Whether the three bytes below the stack pointer hold the address `back`.
pub open spec fn returns_to(machine: Machine, memory: Seq<u8>, back: int) -> bool {
    let stack = machine.sp_address();
    &&& 0 <= back < 0x100_0000
    &&& memory[stack - 3] == bank_of(back) as u8
    &&& memory[stack - 2] == ((back / 256) % 256) as u8
    &&& memory[stack - 1] == (back % 256) as u8
}

/// The address of a call's operand depends on the general registers, the
/// metadata word and the place of the operand alone.
proof fn lemma_call_target(machine: Machine, memory: Seq<u8>)
    requires
        0 <= machine.pc - 3,
        machine.pc + 2 < memory.len(),
        machine.metadata == join_bytes(memory[machine.pc - 2], memory[machine.pc - 1]),
    ensures
        operand_address(machine, memory) == call_target(machine, memory, machine.pc - 3),
{
    reveal(call_target);
    reveal(operand_address);
}

/// The address that a call goes to stays where the general registers and the
/// five bytes behind the opcode stay.
proof fn lemma_call_target_stays(
    machine: Machine,
    memory: Seq<u8>,
    other: Machine,
    changed: Seq<u8>,
    at: int,
)
    requires
        other.ra == machine.ra,
        other.rb == machine.rb,
        other.rc == machine.rc,
        other.rd == machine.rd,
        changed[at + 1] == memory[at + 1],
        changed[at + 2] == memory[at + 2],
        changed[at + 3] == memory[at + 3],
        changed[at + 4] == memory[at + 4],
        changed[at + 5] == memory[at + 5],
    ensures
        call_target(other, changed, at) == call_target(machine, memory, at),
{
    reveal(call_target);
    reveal(operand_address);
}

/// Routines that nest stay as they are where the memory changes only at
/// addresses that none of them reaches into.
proof fn lemma_nested_stays(
    table: Seq<Decoded>,
    memory: Seq<u8>,
    changed: Seq<u8>,
    machine: Machine,
    other: Machine,
    routines: Seq<int>,
    from: int,
    low: int,
    high: int,
)
    requires
        nested(table, memory, machine, routines, from),
        same_outside(changed, memory, low, high),
        code_outside(routines, from, low, high),
        other.ra == machine.ra,
        other.rb == machine.rb,
        other.rc == machine.rc,
        other.rd == machine.rd,
    ensures
        nested(table, changed, other, routines, from),
    decreases routines.len() - from,
{
    let at = routines[from];
    if from < routines.len() - 1 {
        lemma_call_target_stays(machine, memory, other, changed, at);
        lemma_nested_stays(table, memory, changed, machine, other, routines, from + 1, low, high);
    } else {
    }
}

/// Routines that call one another to any depth come back. Where the engine
/// is about to fetch the first of routines that nest, the three bytes below
/// the stack pointer hold the address `back`, the stack has room for four
/// bytes for each call, and no routine lies where the stack will grow, the
/// routines run to their end in `cycles_nested` cycles; then the engine is
/// about to fetch at `back`, the stack pointer is four bytes down, the
/// general registers are as they were, and the memory has changed at most
/// where the stack grew.
pub proof fn lemma_routines_return(
    system: System,
    table: Seq<Decoded>,
    routines: Seq<int>,
    from: int,
    back: int,
)
    requires
        0 <= from < routines.len(),
        about_to_fetch(system.machine, system.pins),
        system.machine.pc == routines[from],
        nested(table, system.memory, system.machine, routines, from),
        system.machine.sp >= 4,
        system.machine.sp + 4 * (routines.len() - 1 - from) <= 0xFFFF,
        system.machine.sp_address() + 4 * (routines.len() - 1 - from) <= system.memory.len()
            <= 0x100_0000,
        returns_to(system.machine, system.memory, back),
        code_outside(
            routines,
            from,
            system.machine.sp_address(),
            system.machine.sp_address() + 4 * (routines.len() - 1 - from),
        ),
    ensures
        system.turns(table, cycles_nested((routines.len() - 1 - from) as nat)) matches Some(after)
            && {
            &&& about_to_fetch(after.machine, after.pins)
            &&& after.machine.pc == back
            &&& after.machine.sp == system.machine.sp - 4
            &&& after.machine.sp_page == system.machine.sp_page
            &&& after.machine.ra == system.machine.ra
            &&& after.machine.rb == system.machine.rb
            &&& after.machine.rc == system.machine.rc
            &&& after.machine.rd == system.machine.rd
            &&& after.pins.irq == system.pins.irq
            &&& same_outside(
                after.memory,
                system.memory,
                system.machine.sp_address(),
                system.machine.sp_address() + 4 * (routines.len() - 1 - from),
            )
        },
    decreases routines.len() - from,
{
    let depth = (routines.len() - 1 - from) as nat;
    let at = routines[from];
    let stack = system.machine.sp_address();
    let memory = system.memory;
    if depth == 0 {
        lemma_fetch(system.machine, system.pins, memory, table);
        let fetched = system.turns(table, 3)->0;
        lemma_return(fetched.machine, fetched.pins, fetched.memory, table);
        lemma_turns_add(system, table, 3, 5);
    } else {
        // the call
        lemma_fetch(system.machine, system.pins, memory, table);
        let fetched = system.turns(table, 3)->0;
        lemma_call_target(fetched.machine, memory);
        lemma_call_target_stays(system.machine, memory, fetched.machine, memory, at);
        lemma_call(fetched.machine, fetched.pins, memory, table);
        let called = fetched.turns(table, 6)->0;
        // the routines inside it
        lemma_nested_stays(
            table,
            memory,
            called.memory,
            system.machine,
            called.machine,
            routines,
            from + 1,
            stack,
            stack + 4,
        );
        lemma_routines_return(called, table, routines, from + 1, at + 6);
        let inner = cycles_nested((depth - 1) as nat);
        let came_back = called.turns(table, inner)->0;
        // the return behind the call
        lemma_fetch(came_back.machine, came_back.pins, came_back.memory, table);
        let refetched = came_back.turns(table, 3)->0;
        lemma_return(refetched.machine, refetched.pins, refetched.memory, table);
        // the cycles add up
        lemma_turns_add(came_back, table, 3, 5);
        lemma_turns_add(called, table, inner, 8);
        lemma_turns_add(fetched, table, 6, inner + 8);
        lemma_turns_add(system, table, 3, 6 + inner + 8);
    }
}

/// A call comes back, whatever the depth to which the routine that it calls
/// nests further calls: the program counter ends behind the operand of the
/// call, and the stack pointer where it was before the call.
pub proof fn lemma_nested_calls_return(
    system: System,
    table: Seq<Decoded>,
    routines: Seq<int>,
    at: int,
)
    requires
        routines.len() >= 1,
        about_to_fetch(system.machine, system.pins),
        system.machine.pc == at,
        call_at(table, system.memory, system.machine, at, routines[0]),
        nested(table, system.memory, system.machine, routines, 0),
        system.machine.sp + 4 * routines.len() <= 0xFFFF,
        system.machine.sp_address() + 4 * routines.len() <= system.memory.len() <= 0x100_0000,
        at + 9 <= system.machine.sp_address() || at >= system.machine.sp_address() + 4
            * routines.len(),
        code_outside(
            routines,
            0,
            system.machine.sp_address(),
            system.machine.sp_address() + 4 * routines.len(),
        ),
    ensures
        system.turns(table, 9 + cycles_nested((routines.len() - 1) as nat)) matches Some(after) && {
            &&& after.machine.pc == at + 6
            &&& after.machine.sp == system.machine.sp
            &&& after.machine.sp_page == system.machine.sp_page
        },
{
    let stack = system.machine.sp_address();
    let memory = system.memory;
    let depth = (routines.len() - 1) as nat;
    lemma_fetch(system.machine, system.pins, memory, table);
    let fetched = system.turns(table, 3)->0;
    lemma_call_target(fetched.machine, memory);
    lemma_call_target_stays(system.machine, memory, fetched.machine, memory, at);
    lemma_call(fetched.machine, fetched.pins, memory, table);
    let called = fetched.turns(table, 6)->0;
    lemma_nested_stays(
        table,
        memory,
        called.memory,
        system.machine,
        called.machine,
        routines,
        0,
        stack,
        stack + 4,
    );
    lemma_routines_return(called, table, routines, 0, at + 6);
    lemma_turns_add(fetched, table, 6, cycles_nested(depth));
    lemma_turns_add(system, table, 3, 6 + cycles_nested(depth));
}

} // verus!
