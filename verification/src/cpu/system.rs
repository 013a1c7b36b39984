//! The engine together with one memory that serves every transaction on the
//! address bus: what a caller's loop makes of the two.

use vstd::prelude::*;
use crate::cpu::{Machine, PinsModel, ReadWrite, bus_resolved, devices_served};
use crate::device::{
    AddressMappedDevice, DeviceResult, RAM, linear_read, linear_write, read_claimant, scan_read,
    scan_write, store, write_claimant,
};
use crate::info::Decoded;

verus! {

/// The pins and the memory after the memory served what the pins ask for: a
/// read puts a byte or a word on the data lines, a write changes the memory.
/// `None` where the memory cannot serve.
pub open spec fn serve(pins: PinsModel, word: bool, memory: Seq<u8>) -> Option<
    (PinsModel, Seq<u8>),
> {
    if !pins.bus_enable {
        Some((pins, memory))
    } else if pins.rw == ReadWrite::Read {
        match linear_read(0, memory.len() - 1, memory, pins.address, word) {
            DeviceResult::Ok8(value) => Some((PinsModel { data: value as u16, ..pins }, memory)),
            DeviceResult::Ok16(value) => Some((PinsModel { data: value, ..pins }, memory)),
            _ => None,
        }
    } else {
        match linear_write(0, memory.len() - 1, pins.address, word) {
            DeviceResult::Done => Some((pins, store(memory, pins.address, pins.data, word))),
            _ => None,
        }
    }
}

/// The memory of this model is a bus with one RAM that starts at address
/// zero: what `serve` puts on the pins is what the engine's bus resolves to,
/// and the memory that `serve` leaves is what the RAM holds afterwards;
/// where `serve` cannot serve, the bus reports an error.
pub proof fn lemma_serve_is_ram(pins: PinsModel, word: bool, ram: RAM)
    requires
        ram.first() == 0,
        ram.last() == ram@.len() - 1,
    ensures
        match serve(pins, word, ram@) {
            Some((served, memory)) => {
                &&& bus_resolved(pins, word, seq![ram]) == Ok::<PinsModel, DeviceResult>(served)
                &&& forall|after: RAM| #[trigger]
                    devices_served(pins, word, seq![ram], seq![after]) ==> after@ == memory
            },
            None => bus_resolved(pins, word, seq![ram]) is Err,
        },
{
    reveal_with_fuel(scan_read, 2);
    reveal_with_fuel(scan_write, 2);
    reveal_with_fuel(read_claimant, 2);
    reveal_with_fuel(write_claimant, 2);
}

/// The engine, the pins and the memory between two cycles.
pub struct System {
    pub machine: Machine,
    pub pins: PinsModel,
    pub memory: Seq<u8>,
}

impl System {
    /// One turn of the caller's loop: a cycle of the engine, then the memory
    /// serves the bus. `None` where the engine faults or the memory cannot
    /// serve.
    #[verifier::opaque]
    pub open spec fn turn(self, table: Seq<Decoded>) -> Option<System> {
        match self.machine.cycle(self.pins, table, false) {
            Ok((machine, pins, _)) => match serve(pins, machine.word, self.memory) {
                Some((served, memory)) => Some(System { machine, pins: served, memory }),
                None => None,
            },
            Err(_) => None,
        }
    }

    /// `count` turns of the caller's loop.
    pub open spec fn turns(self, table: Seq<Decoded>, count: nat) -> Option<System>
        decreases count,
    {
        if count == 0 {
            Some(self)
        } else {
            match self.turn(table) {
                Some(next) => next.turns(table, (count - 1) as nat),
                None => None,
            }
        }
    }
}

/// Turns add up: `first + second` turns are `first` turns and then `second`.
pub proof fn lemma_turns_add(system: System, table: Seq<Decoded>, first: nat, second: nat)
    ensures
        system.turns(table, first + second) == (match system.turns(table, first) {
            Some(between) => between.turns(table, second),
            None => None,
        }),
    decreases first,
{
    if first > 0 {
        match system.turn(table) {
            Some(next) => {
                lemma_turns_add(next, table, (first - 1) as nat, second);
            },
            None => {},
        }
    }
}

} // verus!
