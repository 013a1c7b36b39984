//! HLT: stop.

use vstd::prelude::*;
use crate::device::{AddressMappedDevice, IOMappedDevice};
use crate::cpu::{AddressingMode, CPU, CPUState, Fault, Machine, Pins, PinsModel, Step, step_taken};

verus! {

impl Machine {
    /// The one cycle of a halt: the engine stands still from now on. The pins
    /// stay as they are.
    #[verifier::opaque]
    pub open spec fn halt(self, pins: PinsModel) -> Step {
        Ok((Machine { state: CPUState::Halt, ..self }, pins))
    }
}

impl<D: AddressMappedDevice, P: IOMappedDevice> CPU<D, P> {
    /// Halts the engine.
    pub fn HLT(&mut self, pins: &mut Pins, _mode: AddressingMode) -> (result: Result<(), Fault>)
        ensures
            step_taken(
                old(self)@.halt(old(pins)@),
                result,
                (old(self)@, old(pins)@),
                (final(self)@, final(pins)@),
            ),
            final(self).same_wiring(old(self)),
    {
        proof {
            reveal(Machine::halt);
        }
        self.state = CPUState::Halt;
        Ok(())
    }
}

} // verus!
