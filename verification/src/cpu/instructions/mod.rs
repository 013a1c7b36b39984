//! The instructions, one family to a file: what each does to the machine, and
//! the handler that does it.

#![allow(non_snake_case)]

pub mod mov;
pub mod st;
pub mod add;
pub mod sub;
pub mod compare;
pub mod dec;
pub mod logic;
pub mod shift;
pub mod stack;
pub mod flags;
pub mod hlt;
pub mod io;
pub mod jumps;

use vstd::prelude::*;
use crate::device::{AddressMappedDevice, IOMappedDevice};
use crate::cpu::{AddressingMode, CPU, Fault, Flag, Machine, Pins, PinsModel, Step, step_taken};
use crate::cpu::model::{alu_sum, compare_flags};
use crate::info::{Decoded, Mnemonic};
use logic::Logic;

verus! {

impl<D: AddressMappedDevice, P: IOMappedDevice> CPU<D, P> {
    /// Adds `addend` and the carry flag to `a`, sets the flags for the sum and
    /// hands out the result.
    pub(crate) fn add_with_carry(&mut self, a: u16, addend: u32, shown: u16, byte: bool) -> (result:
        u16)
        requires
            addend <= 0x1_0000,
        ensures
            (final(self)@.flags, result) == alu_sum(old(self)@.flags, a, addend as int, shown, byte),
            final(self)@ == (Machine { flags: final(self)@.flags, ..old(self)@ }),
            final(self).same_wiring(old(self)),
    {
        let carry: u32 = if self.flags.contains(Flag::C) {
            1
        } else {
            0
        };
        let total: u32 = a as u32 + addend + carry;
        let temp: u16 = (total % 0x1_0000) as u16;
        let result: u16 = if byte {
            temp % 256
        } else {
            temp
        };
        self.flags.set(
            Flag::C,
            if byte {
                temp > 0xFF
            } else {
                total > 0xFFFF
            },
        );
        self.flags.set(Flag::O, (!(a ^ shown) ^ temp) != 0);
        self.set_zn(result, byte);
        result
    }

    /// Sets or clears Zero, Negative, Greater and Less for `a` against `b`.
    pub(crate) fn compare(&mut self, a: u16, b: u16, byte: bool)
        requires
            byte ==> a < 256 && b < 256,
        ensures
            final(self)@ == (Machine {
                flags: compare_flags(old(self)@.flags, a, b, byte),
                ..old(self)@
            }),
            final(self).same_wiring(old(self)),
    {
        let difference: u16 = if a >= b {
            a - b
        } else if byte {
            a + 256 - b
        } else {
            (a as u32 + 0x1_0000 - b as u32) as u16
        };
        self.flags.set(Flag::Z, a == b);
        self.flags.set(
            Flag::N,
            if byte {
                difference % 256 >= 128
            } else {
                difference >= 0x8000
            },
        );
        self.flags.set(Flag::G, a > b);
        self.flags.set(Flag::L, a < b);
    }
}

impl Machine {
    /// One cycle of the instruction `mnemonic` in the addressing mode `mode`.
    pub open spec fn dispatch(self, pins: PinsModel, mnemonic: Mnemonic, mode: AddressingMode)
        -> Step {
        match mnemonic {
            Mnemonic::Mov => self.mov(pins, mode, false),
            Mnemonic::Movb => self.mov(pins, mode, true),
            Mnemonic::St => self.store(pins, mode, false),
            Mnemonic::Stb => self.store(pins, mode, true),
            Mnemonic::And => self.logic(pins, Logic::And, mode, false),
            Mnemonic::Xor => self.logic(pins, Logic::Xor, mode, false),
            Mnemonic::Xorb => self.logic(pins, Logic::Xor, mode, true),
            Mnemonic::Psh => self.push(pins, mode, false),
            Mnemonic::Pshb => self.push(pins, mode, true),
            Mnemonic::Pop => self.pop(pins),
            Mnemonic::Add => self.add(pins, mode, false),
            Mnemonic::Addb => self.add(pins, mode, true),
            Mnemonic::Sub => self.sub(pins, mode, false),
            Mnemonic::Subb => self.sub(pins, mode, true),
            Mnemonic::Cmp => self.compare(pins, mode, false),
            Mnemonic::Cmpb => self.compare(pins, mode, true),
            Mnemonic::Dec => self.dec(pins, mode, false),
            Mnemonic::Decb => self.dec(pins, mode, true),
            Mnemonic::Sbl => self.shift_left(pins, mode, false, false),
            Mnemonic::Sblb => self.shift_left(pins, mode, true, false),
            Mnemonic::Rol => self.shift_left(pins, mode, false, true),
            Mnemonic::Clc => self.change_flag(pins, Flag::C, false),
            Mnemonic::Cli => self.change_flag(pins, Flag::I, false),
            Mnemonic::Clv => self.change_flag(pins, Flag::O, false),
            Mnemonic::Sei => self.change_flag(pins, Flag::I, true),
            Mnemonic::Jmp => self.jump(pins),
            Mnemonic::Jsr => self.call(pins),
            Mnemonic::Biz => self.branch(pins, Flag::Z, true),
            Mnemonic::Bin => self.branch(pins, Flag::N, true),
            Mnemonic::Bic => self.branch(pins, Flag::C, true),
            Mnemonic::Bio => self.branch(pins, Flag::O, true),
            Mnemonic::Bil => self.branch(pins, Flag::L, true),
            Mnemonic::Big => self.branch(pins, Flag::G, true),
            Mnemonic::Bnz => self.branch(pins, Flag::Z, false),
            Mnemonic::Bnn => self.branch(pins, Flag::N, false),
            Mnemonic::Bnc => self.branch(pins, Flag::C, false),
            Mnemonic::Bno => self.branch(pins, Flag::O, false),
            Mnemonic::Bnl => self.branch(pins, Flag::L, false),
            Mnemonic::Bng => self.branch(pins, Flag::G, false),
            Mnemonic::Rts => self.ret(pins),
            Mnemonic::In => self.input(pins),
            Mnemonic::Out => self.output(pins),
            Mnemonic::Hlt => self.halt(pins),
        }
    }

    /// One cycle of the execution of the instruction that was fetched, where
    /// the opcode table says `entry` of its opcode: the bus is switched on,
    /// and the instruction does its cycle.
    pub open spec fn execute_step(self, pins: PinsModel, entry: Decoded) -> Step {
        match entry {
            Ok((mnemonic, mode)) => self.dispatch(
                PinsModel { bus_enable: true, ..pins },
                mnemonic,
                mode,
            ),
            Err(fault) => Err(fault),
        }
    }
}

/// Moves, pushes, pops, input and output.
pub open spec fn is_moves(mnemonic: Mnemonic) -> bool {
    mnemonic == Mnemonic::Mov
        || mnemonic == Mnemonic::Movb
        || mnemonic == Mnemonic::St
        || mnemonic == Mnemonic::Stb
        || mnemonic == Mnemonic::Psh
        || mnemonic == Mnemonic::Pshb
        || mnemonic == Mnemonic::Pop
        || mnemonic == Mnemonic::In
        || mnemonic == Mnemonic::Out
}

/// Additions, subtractions, comparisons and decrements.
pub open spec fn is_arithmetic(mnemonic: Mnemonic) -> bool {
    mnemonic == Mnemonic::Add
        || mnemonic == Mnemonic::Addb
        || mnemonic == Mnemonic::Sub
        || mnemonic == Mnemonic::Subb
        || mnemonic == Mnemonic::Cmp
        || mnemonic == Mnemonic::Cmpb
        || mnemonic == Mnemonic::Dec
        || mnemonic == Mnemonic::Decb
}

/// Logic and shifts.
pub open spec fn is_bits(mnemonic: Mnemonic) -> bool {
    mnemonic == Mnemonic::And
        || mnemonic == Mnemonic::Xor
        || mnemonic == Mnemonic::Xorb
        || mnemonic == Mnemonic::Sbl
        || mnemonic == Mnemonic::Sblb
        || mnemonic == Mnemonic::Rol
}

/// Flag changes, the halt, jumps, calls and returns.
pub open spec fn is_controls(mnemonic: Mnemonic) -> bool {
    mnemonic == Mnemonic::Clc
        || mnemonic == Mnemonic::Cli
        || mnemonic == Mnemonic::Clv
        || mnemonic == Mnemonic::Sei
        || mnemonic == Mnemonic::Hlt
        || mnemonic == Mnemonic::Jmp
        || mnemonic == Mnemonic::Jsr
        || mnemonic == Mnemonic::Rts
}

/// Branches on a set flag.
pub open spec fn is_branches_if(mnemonic: Mnemonic) -> bool {
    mnemonic == Mnemonic::Biz
        || mnemonic == Mnemonic::Bin
        || mnemonic == Mnemonic::Bic
        || mnemonic == Mnemonic::Bio
        || mnemonic == Mnemonic::Bil
        || mnemonic == Mnemonic::Big
}

/// Branches on a clear flag.
pub open spec fn is_branches_not(mnemonic: Mnemonic) -> bool {
    mnemonic == Mnemonic::Bnz
        || mnemonic == Mnemonic::Bnn
        || mnemonic == Mnemonic::Bnc
        || mnemonic == Mnemonic::Bno
        || mnemonic == Mnemonic::Bnl
        || mnemonic == Mnemonic::Bng
}

impl<D: AddressMappedDevice, P: IOMappedDevice> CPU<D, P> {
    fn dispatch_moves(
        &mut self,
        pins: &mut Pins,
        mnemonic: Mnemonic,
        mode: AddressingMode,
    ) -> (result: Result<(), Fault>)
        requires
            is_moves(mnemonic),
        ensures
            step_taken(
                old(self)@.dispatch(old(pins)@, mnemonic, mode),
                result,
                (old(self)@, old(pins)@),
                (final(self)@, final(pins)@),
            ),
            final(self).same_wiring(old(self)),
    {
        match mnemonic {
            Mnemonic::Mov => self.MOV(pins, mode),
            Mnemonic::Movb => self.MOVB(pins, mode),
            Mnemonic::St => self.ST(pins, mode),
            Mnemonic::Stb => self.STB(pins, mode),
            Mnemonic::Psh => self.PSH(pins, mode),
            Mnemonic::Pshb => self.PSHB(pins, mode),
            Mnemonic::Pop => self.POP(pins, mode),
            Mnemonic::In => self.IN(pins, mode),
            Mnemonic::Out => self.OUT(pins, mode),
            _ => Err(Fault::UnknownMnemonic),
        }
    }

    fn dispatch_arithmetic(
        &mut self,
        pins: &mut Pins,
        mnemonic: Mnemonic,
        mode: AddressingMode,
    ) -> (result: Result<(), Fault>)
        requires
            is_arithmetic(mnemonic),
        ensures
            step_taken(
                old(self)@.dispatch(old(pins)@, mnemonic, mode),
                result,
                (old(self)@, old(pins)@),
                (final(self)@, final(pins)@),
            ),
            final(self).same_wiring(old(self)),
    {
        match mnemonic {
            Mnemonic::Add => self.ADD(pins, mode),
            Mnemonic::Addb => self.ADDB(pins, mode),
            Mnemonic::Sub => self.SUB(pins, mode),
            Mnemonic::Subb => self.SUBB(pins, mode),
            Mnemonic::Cmp => self.CMP(pins, mode),
            Mnemonic::Cmpb => self.CMPB(pins, mode),
            Mnemonic::Dec => self.DEC(pins, mode),
            Mnemonic::Decb => self.DECB(pins, mode),
            _ => Err(Fault::UnknownMnemonic),
        }
    }

    fn dispatch_bits(
        &mut self,
        pins: &mut Pins,
        mnemonic: Mnemonic,
        mode: AddressingMode,
    ) -> (result: Result<(), Fault>)
        requires
            is_bits(mnemonic),
        ensures
            step_taken(
                old(self)@.dispatch(old(pins)@, mnemonic, mode),
                result,
                (old(self)@, old(pins)@),
                (final(self)@, final(pins)@),
            ),
            final(self).same_wiring(old(self)),
    {
        match mnemonic {
            Mnemonic::And => self.AND(pins, mode),
            Mnemonic::Xor => self.XOR(pins, mode),
            Mnemonic::Xorb => self.XORB(pins, mode),
            Mnemonic::Sbl => self.SBL(pins, mode),
            Mnemonic::Sblb => self.SBLB(pins, mode),
            Mnemonic::Rol => self.ROL(pins, mode),
            _ => Err(Fault::UnknownMnemonic),
        }
    }

    fn dispatch_controls(
        &mut self,
        pins: &mut Pins,
        mnemonic: Mnemonic,
        mode: AddressingMode,
    ) -> (result: Result<(), Fault>)
        requires
            is_controls(mnemonic),
        ensures
            step_taken(
                old(self)@.dispatch(old(pins)@, mnemonic, mode),
                result,
                (old(self)@, old(pins)@),
                (final(self)@, final(pins)@),
            ),
            final(self).same_wiring(old(self)),
    {
        match mnemonic {
            Mnemonic::Clc => self.CLC(pins, mode),
            Mnemonic::Cli => self.CLI(pins, mode),
            Mnemonic::Clv => self.CLV(pins, mode),
            Mnemonic::Sei => self.SEI(pins, mode),
            Mnemonic::Hlt => self.HLT(pins, mode),
            Mnemonic::Jmp => self.JMP(pins, mode),
            Mnemonic::Jsr => self.JSR(pins, mode),
            Mnemonic::Rts => self.RTS(pins, mode),
            _ => Err(Fault::UnknownMnemonic),
        }
    }

    fn dispatch_branches_if(
        &mut self,
        pins: &mut Pins,
        mnemonic: Mnemonic,
        mode: AddressingMode,
    ) -> (result: Result<(), Fault>)
        requires
            is_branches_if(mnemonic),
        ensures
            step_taken(
                old(self)@.dispatch(old(pins)@, mnemonic, mode),
                result,
                (old(self)@, old(pins)@),
                (final(self)@, final(pins)@),
            ),
            final(self).same_wiring(old(self)),
    {
        match mnemonic {
            Mnemonic::Biz => self.BIZ(pins, mode),
            Mnemonic::Bin => self.BIN(pins, mode),
            Mnemonic::Bic => self.BIC(pins, mode),
            Mnemonic::Bio => self.BIO(pins, mode),
            Mnemonic::Bil => self.BIL(pins, mode),
            Mnemonic::Big => self.BIG(pins, mode),
            _ => Err(Fault::UnknownMnemonic),
        }
    }

    fn dispatch_branches_not(
        &mut self,
        pins: &mut Pins,
        mnemonic: Mnemonic,
        mode: AddressingMode,
    ) -> (result: Result<(), Fault>)
        requires
            is_branches_not(mnemonic),
        ensures
            step_taken(
                old(self)@.dispatch(old(pins)@, mnemonic, mode),
                result,
                (old(self)@, old(pins)@),
                (final(self)@, final(pins)@),
            ),
            final(self).same_wiring(old(self)),
    {
        match mnemonic {
            Mnemonic::Bnz => self.BNZ(pins, mode),
            Mnemonic::Bnn => self.BNN(pins, mode),
            Mnemonic::Bnc => self.BNC(pins, mode),
            Mnemonic::Bno => self.BNO(pins, mode),
            Mnemonic::Bnl => self.BNL(pins, mode),
            Mnemonic::Bng => self.BNG(pins, mode),
            _ => Err(Fault::UnknownMnemonic),
        }
    }

    /// Runs one cycle of the instruction `mnemonic`.
    pub(crate) fn dispatch(&mut self, pins: &mut Pins, mnemonic: Mnemonic, mode: AddressingMode)
        -> (result: Result<(), Fault>)
        ensures
            step_taken(
                old(self)@.dispatch(old(pins)@, mnemonic, mode),
                result,
                (old(self)@, old(pins)@),
                (final(self)@, final(pins)@),
            ),
            final(self).same_wiring(old(self)),
    {
        match mnemonic {
            Mnemonic::Mov
            | Mnemonic::Movb
            | Mnemonic::St
            | Mnemonic::Stb
            | Mnemonic::Psh
            | Mnemonic::Pshb
            | Mnemonic::Pop
            | Mnemonic::In
            | Mnemonic::Out => self.dispatch_moves(pins, mnemonic, mode),
            Mnemonic::Add
            | Mnemonic::Addb
            | Mnemonic::Sub
            | Mnemonic::Subb
            | Mnemonic::Cmp
            | Mnemonic::Cmpb
            | Mnemonic::Dec
            | Mnemonic::Decb => self.dispatch_arithmetic(pins, mnemonic, mode),
            Mnemonic::And
            | Mnemonic::Xor
            | Mnemonic::Xorb
            | Mnemonic::Sbl
            | Mnemonic::Sblb
            | Mnemonic::Rol => self.dispatch_bits(pins, mnemonic, mode),
            Mnemonic::Clc
            | Mnemonic::Cli
            | Mnemonic::Clv
            | Mnemonic::Sei
            | Mnemonic::Hlt
            | Mnemonic::Jmp
            | Mnemonic::Jsr
            | Mnemonic::Rts => self.dispatch_controls(pins, mnemonic, mode),
            Mnemonic::Biz
            | Mnemonic::Bin
            | Mnemonic::Bic
            | Mnemonic::Bio
            | Mnemonic::Bil
            | Mnemonic::Big => self.dispatch_branches_if(pins, mnemonic, mode),
            Mnemonic::Bnz
            | Mnemonic::Bnn
            | Mnemonic::Bnc
            | Mnemonic::Bno
            | Mnemonic::Bnl
            | Mnemonic::Bng => self.dispatch_branches_not(pins, mnemonic, mode),
        }
    }
}

} // verus!
