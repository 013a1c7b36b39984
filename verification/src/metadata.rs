//! The second word of an instruction and the fields packed into it.

use vstd::prelude::*;

verus! {

/// How an instruction finds its operand.
#[derive(Debug, Clone, Copy, PartialEq, Eq, Structural)]
pub enum AddressingMode {
    /// No operand.
    Implied,
    /// The operand follows the instruction.
    Immediate,
    /// The operand is a register.
    Register,
    /// The operand is in memory, at an address that follows the instruction.
    Absolute,
}

/// The first register selector: bits 0 to 3.
pub open spec fn meta_reg0(word: u16) -> u8 {
    (word % 16) as u8
}

/// The second register selector: bits 4 to 7.
pub open spec fn meta_reg1(word: u16) -> u8 {
    ((word / 16) % 16) as u8
}

/// The magnitude of the displacement: bits 8 to 13.
pub open spec fn meta_offset(word: u16) -> u8 {
    ((word / 0x100) % 64) as u8
}

/// The sign of the displacement: bit 14.
pub open spec fn meta_offset_sign(word: u16) -> u8 {
    ((word / 0x4000) % 2) as u8
}

/// Whether the address is indexed by a register: bit 15.
pub open spec fn meta_reg_offset(word: u16) -> u8 {
    (word / 0x8000) as u8
}

/// The displacement that the word encodes: six bits of magnitude, taken as
/// they are where the sign bit is clear and lowered by 128 where it is set.
pub open spec fn meta_displacement(word: u16) -> int {
    if meta_offset_sign(word) > 0 {
        meta_offset(word) as int - 128
    } else {
        meta_offset(word) as int
    }
}

/// The metadata word of an instruction.
#[derive(Debug, Clone, Copy, PartialEq, Eq, Structural)]
pub struct CPUMetadata(pub u16);

impl CPUMetadata {
    /// The whole word, as immediate data.
    pub fn data(&self) -> (w: u16)
        ensures
            w == self.0,
    {
        self.0
    }

    /// Replaces the whole word.
    pub fn set_data(&mut self, data: u16)
        ensures
            final(self).0 == data,
    {
        self.0 = data;
    }

    /// The low byte of the word.
    pub fn lo_byte(&self) -> (b: u8)
        ensures
            b == self.0 % 256,
    {
        (self.0 % 256) as u8
    }

    /// The first register selector.
    pub fn reg0(&self) -> (r: u8)
        ensures
            r == meta_reg0(self.0),
            r < 16,
    {
        (self.0 % 16) as u8
    }

    /// The second register selector.
    pub fn reg1(&self) -> (r: u8)
        ensures
            r == meta_reg1(self.0),
            r < 16,
    {
        ((self.0 / 16) % 16) as u8
    }

    /// The magnitude of the displacement.
    pub fn offset(&self) -> (r: u8)
        ensures
            r == meta_offset(self.0),
            r < 64,
    {
        ((self.0 / 0x100) % 64) as u8
    }

    /// The sign bit of the displacement.
    pub fn offset_sign(&self) -> (r: u8)
        ensures
            r == meta_offset_sign(self.0),
            r < 2,
    {
        ((self.0 / 0x4000) % 2) as u8
    }

    /// The bit that asks for an address indexed by a register.
    pub fn reg_offset(&self) -> (r: u8)
        ensures
            r == meta_reg_offset(self.0),
            r < 2,
    {
        (self.0 / 0x8000) as u8
    }

    /// The displacement that the word encodes.
    pub fn displacement(&self) -> (d: i8)
        ensures
            d == meta_displacement(self.0),
    {
        let magnitude = self.offset();
        if self.offset_sign() > 0 {
            (magnitude as i16 - 128) as i8
        } else {
            magnitude as i8
        }
    }
}

/// The instruction that the engine has fetched.
#[derive(Debug, Clone, Copy)]
pub struct Instruction {
    pub opcode: u8,
    pub metadata: CPUMetadata,
}

} // verus!
