//! The reset: where the engine starts.

use vstd::prelude::*;
use crate::address::bank_address;
use crate::bits::join_bytes;
use crate::cpu::{CPUState, Machine, PinsModel, reset_pins};
use crate::cpu::system::System;
use crate::info::Decoded;

verus! {

/// After a reset the engine loads the program counter from the three bytes at
/// address zero, the bank byte first and then the upper and the lower byte of
/// the offset, whatever state it was in and whatever the interrupt lines say;
/// the general registers and the flags are zero then.
pub proof fn lemma_reset_loads_vector(
    machine: Machine,
    pins: PinsModel,
    memory: Seq<u8>,
    table: Seq<Decoded>,
)
    requires
        memory.len() >= 3,
    ensures
        (System { machine: machine.reset(), pins: reset_pins(pins), memory }).turns(table, 3)
            matches Some(system) && {
            &&& system.machine.pc == bank_address(
                memory[0] as int,
                join_bytes(memory[1], memory[2]) as int,
            )
            &&& system.machine.ra == 0
            &&& system.machine.rb == 0
            &&& system.machine.rc == 0
            &&& system.machine.rd == 0
            &&& system.machine.flags == 0
            &&& system.machine.state != CPUState::Reset
            &&& system.memory == memory
        },
{
    reveal(System::turn);
    let start = System { machine: machine.reset(), pins: reset_pins(pins), memory };
    let one = start.turn(table);
    let two = one->0.turn(table);
    let three = two->0.turn(table);
    assert(start.turns(table, 3) == three) by {
        reveal_with_fuel(System::turns, 4);
    }
}

} // verus!
