//! What holds of the engine whatever state it is in and whatever program it
//! runs: each is stated of the machine, the pins and one memory that serves
//! the bus, and proved.

pub mod reset;
pub mod fetch;
pub mod moves;
pub mod calls;
pub mod nesting;
pub mod interrupts;
pub mod sequencing;
pub mod order;

use vstd::prelude::*;
use crate::cpu::{CPUState, InterruptStatus, Machine, PinsModel, table_entry};
use crate::info::{Decoded, Mnemonic};

verus! {

/// Whether the engine is about to execute, in cycle one, an instruction that
/// the opcode table knows as `mnemonic`, with no interrupt waiting or asked
/// for.
pub open spec fn about_to_execute(
    machine: Machine,
    pins: PinsModel,
    table: Seq<Decoded>,
    mnemonic: Mnemonic,
) -> bool {
    &&& machine.state == CPUState::Execute
    &&& machine.cycle == 1
    &&& machine.int_status == InterruptStatus::Idle
    &&& !pins.irq.req
    &&& !pins.irq.nmi
    &&& table_entry(table, machine.opcode) matches Ok((found, _)) && found == mnemonic
}

} // verus!
