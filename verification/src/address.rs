//! Addresses: the banked 24-bit address of the bus, and the stack pointer that
//! moves inside one bank.

use vstd::prelude::*;
use crate::bits::lemma_mask_low_bits;

verus! {

/// The number of addresses on the bus.
pub const ADDRESS_SPACE: u32 = 0x100_0000;

/// The number of addresses in one bank.
pub const BANK_SIZE: u32 = 0x1_0000;

/// `value` brought into the address range: addresses wrap around.
pub open spec fn wrap_address(value: int) -> int {
    value % 0x100_0000
}

/// The bank byte of an address.
pub open spec fn bank_of(address: int) -> int {
    address / 0x1_0000
}

/// The 16-bit offset of an address inside its bank.
pub open spec fn segment_of(address: int) -> int {
    address % 0x1_0000
}

/// The address with bank byte `bank` and in-bank offset `segment`.
pub open spec fn bank_address(bank: int, segment: int) -> int {
    bank * 0x1_0000 + segment
}

/// An address on the bus: a bank byte above a 16-bit offset.
#[derive(Clone, Copy, Debug)]
pub struct ExtendedAddress {
    value: u32,
}

impl View for ExtendedAddress {
    type V = int;

    /// An address stands for its number, below `0x100_0000`.
    closed spec fn view(&self) -> int {
        self.value as int
    }
}

impl ExtendedAddress {
    /// The address whose number is `value`.
    pub closed spec fn at(value: int) -> ExtendedAddress {
        ExtendedAddress { value: value as u32 }
    }

    /// The address made for a number in the address range stands for it.
    pub proof fn lemma_at(value: int)
        requires
            0 <= value < 0x100_0000,
        ensures
            Self::at(value)@ == value,
    {
    }

    #[verifier::type_invariant]
    spec fn in_range(self) -> bool {
        self.value < ADDRESS_SPACE
    }

    /// An address in bank zero.
    pub fn new_16bit_address(address: u16) -> (r: Self)
        ensures
            r@ == address,
    {
        ExtendedAddress { value: address as u32 }
    }

    /// The address `address` in bank `extended`.
    pub fn new_split_ext_address(address: u16, extended: u8) -> (r: Self)
        ensures
            r@ == bank_address(extended as int, address as int),
    {
        ExtendedAddress { value: (extended as u32) * BANK_SIZE + (address as u32) }
    }

    /// The address made of the low 24 bits of `address`.
    pub fn new_ext_address(address: u32) -> (r: Self)
        ensures
            r@ == wrap_address(address as int),
    {
        proof {
            lemma_mask_low_bits(address);
        }
        ExtendedAddress { value: address & 0xFF_FFFF }
    }

    /// The address `address` in one of the four lowest banks: only the low two
    /// bits of `extended` count.
    pub fn new_split_18bit_address(address: u16, extended: u8) -> (r: Self)
        ensures
            r@ == bank_address(extended as int % 4, address as int),
    {
        ExtendedAddress { value: ((extended % 4) as u32) * BANK_SIZE + (address as u32) }
    }

    /// The address made of the low 18 bits of `address`.
    pub fn new_18bit_address(address: u32) -> (r: Self)
        ensures
            r@ == address as int % 0x4_0000,
    {
        proof {
            lemma_mask_low_bits(address);
        }
        ExtendedAddress { value: address & 0x3_FFFF }
    }

    /// The number of the address.
    pub fn value(&self) -> (v: u32)
        ensures
            v == self@,
            v < ADDRESS_SPACE,
    {
        proof {
            use_type_invariant(self);
        }
        self.value
    }

    /// The offset inside the bank.
    pub fn get_16bit_value(&mut self) -> (v: u16)
        ensures
            v == segment_of(old(self)@),
            final(self)@ == old(self)@,
    {
        (self.value % BANK_SIZE) as u16
    }

    /// Moves to `address` in bank zero.
    pub fn set_16bit_value(&mut self, address: u16)
        ensures
            final(self)@ == address,
    {
        *self = ExtendedAddress { value: address as u32 };
    }

    /// Replaces the offset inside the bank and keeps the bank.
    pub fn set_seg_value(&mut self, address: u16)
        ensures
            final(self)@ == bank_address(bank_of(old(self)@), address as int),
    {
        proof {
            use_type_invariant(&*self);
        }
        *self = ExtendedAddress { value: (self.value / BANK_SIZE) * BANK_SIZE + (address as u32) };
    }

    /// The lowest byte of the address.
    pub fn get_low_byte(&self) -> (b: u8)
        ensures
            b == self@ % 256,
    {
        (self.value % 256) as u8
    }

    /// Replaces the lowest byte of the address.
    pub fn set_low_byte(&mut self, byte: u8)
        ensures
            final(self)@ == (old(self)@ / 256) * 256 + byte,
    {
        proof {
            use_type_invariant(&*self);
        }
        *self = ExtendedAddress { value: (self.value / 256) * 256 + (byte as u32) };
    }

    /// The upper byte of the offset inside the bank.
    pub fn get_hi_byte(&self) -> (b: u8)
        ensures
            b == (self@ / 256) % 256,
    {
        ((self.value / 256) % 256) as u8
    }

    /// Replaces the upper byte of the offset inside the bank.
    pub fn set_hi_byte(&mut self, byte: u8)
        ensures
            final(self)@ == bank_address(bank_of(old(self)@), byte as int * 256 + old(self)@ % 256),
    {
        proof {
            use_type_invariant(&*self);
        }
        *self = ExtendedAddress {
            value: (self.value / BANK_SIZE) * BANK_SIZE + (byte as u32) * 256 + self.value % 256,
        };
    }

    /// Moves to the address made of the low 24 bits of `address`.
    pub fn set_18bit_value(&mut self, address: u32)
        ensures
            final(self)@ == wrap_address(address as int),
    {
        proof {
            lemma_mask_low_bits(address);
        }
        *self = ExtendedAddress { value: address & 0xFF_FFFF };
    }

    /// The bank byte.
    pub fn get_extended_value(&self) -> (b: u8)
        ensures
            b == bank_of(self@),
    {
        proof {
            use_type_invariant(self);
        }
        (self.value / BANK_SIZE) as u8
    }

    /// Replaces the bank byte and keeps the offset inside the bank.
    pub fn set_extended_value(&mut self, extended: u8)
        ensures
            final(self)@ == bank_address(extended as int, segment_of(old(self)@)),
    {
        *self = ExtendedAddress { value: (extended as u32) * BANK_SIZE + self.value % BANK_SIZE };
    }

    /// Moves one address up, from the last address to the first.
    pub fn increment(&mut self)
        ensures
            final(self)@ == wrap_address(old(self)@ + 1),
    {
        proof {
            use_type_invariant(&*self);
        }
        *self = ExtendedAddress { value: (self.value + 1) % ADDRESS_SPACE };
    }

    /// Moves `amount` addresses up, wrapping around.
    pub fn increment_amount(&mut self, amount: u8)
        ensures
            final(self)@ == wrap_address(old(self)@ + amount),
    {
        proof {
            use_type_invariant(&*self);
        }
        *self = ExtendedAddress { value: (self.value + amount as u32) % ADDRESS_SPACE };
    }

    /// Moves by a signed byte, wrapping around at both ends.
    pub fn offset(&mut self, offset: i8)
        ensures
            final(self)@ == wrap_address(old(self)@ + offset),
    {
        self.offset_word(offset as i16);
    }

    /// Moves by a signed word, wrapping around at both ends.
    pub fn offset_word(&mut self, offset: i16)
        ensures
            final(self)@ == wrap_address(old(self)@ + offset),
    {
        proof {
            use_type_invariant(&*self);
        }
        let moved: i64 = self.value as i64 + offset as i64;
        let wrapped: i64 = if moved < 0 {
            moved + ADDRESS_SPACE as i64
        } else if moved >= ADDRESS_SPACE as i64 {
            moved - ADDRESS_SPACE as i64
        } else {
            moved
        };
        *self = ExtendedAddress { value: wrapped as u32 };
    }
}

impl PartialEq for ExtendedAddress {
    fn eq(&self, other: &Self) -> (r: bool) {
        self.value == other.value
    }
}

impl Eq for ExtendedAddress {

}

impl vstd::std_specs::cmp::PartialEqSpecImpl for ExtendedAddress {
    open spec fn obeys_eq_spec() -> bool {
        true
    }

    /// Two addresses are equal when their numbers are.
    open spec fn eq_spec(&self, other: &Self) -> bool {
        self@ == other@
    }
}

impl PartialEq<u32> for ExtendedAddress {
    fn eq(&self, other: &u32) -> (r: bool) {
        proof {
            lemma_mask_low_bits(*other);
        }
        self.value == (*other & 0xFF_FFFF)
    }
}

impl vstd::std_specs::cmp::PartialEqSpecImpl<u32> for ExtendedAddress {
    open spec fn obeys_eq_spec() -> bool {
        true
    }

    /// An address equals a number when it equals the number's low 24 bits.
    open spec fn eq_spec(&self, other: &u32) -> bool {
        self@ == wrap_address(*other as int)
    }
}

impl From<ExtendedAddress> for u32 {
    fn from(val: ExtendedAddress) -> (r: u32) {
        val.value
    }
}

impl vstd::std_specs::convert::FromSpecImpl<ExtendedAddress> for u32 {
    open spec fn obeys_from_spec() -> bool {
        true
    }

    /// The number of the address.
    open spec fn from_spec(val: ExtendedAddress) -> u32 {
        val@ as u32
    }
}

impl From<ExtendedAddress> for u16 {
    fn from(val: ExtendedAddress) -> (r: u16) {
        (val.value % BANK_SIZE) as u16
    }
}

impl vstd::std_specs::convert::FromSpecImpl<ExtendedAddress> for u16 {
    open spec fn obeys_from_spec() -> bool {
        true
    }

    /// The offset of the address inside its bank.
    open spec fn from_spec(val: ExtendedAddress) -> u16 {
        segment_of(val@) as u16
    }
}

/// The stack pointer: a 16-bit offset that moves inside one fixed bank.
#[derive(Clone, Copy, Debug, PartialEq, Eq, Structural)]
pub struct StackAddress {
    value: u16,
    page: u8,
}

impl StackAddress {
    /// The offset inside the stack's bank.
    pub closed spec fn offset_value(self) -> u16 {
        self.value
    }

    /// The bank that holds the stack.
    pub closed spec fn bank(self) -> u8 {
        self.page
    }

    /// The bus address that the stack pointer names.
    pub open spec fn address(self) -> int {
        bank_address(self.bank() as int, self.offset_value() as int)
    }

    /// A stack pointer at `address` in bank `page`, bank one when none is given.
    pub fn new(address: u16, page: Option<u8>) -> (r: Self)
        ensures
            r.offset_value() == address,
            r.bank() == (match page {
                Some(p) => p,
                None => 1u8,
            }),
    {
        let page = match page {
            Some(p) => p,
            None => 1,
        };
        StackAddress { value: address, page }
    }

    /// The offset inside the stack's bank.
    pub fn get_value(&self) -> (v: u16)
        ensures
            v == self.offset_value(),
    {
        self.value
    }

    /// The bank that holds the stack.
    pub fn get_page(&self) -> (p: u8)
        ensures
            p == self.bank(),
    {
        self.page
    }

    /// The bus address that the stack pointer names.
    pub fn to_address(&self) -> (a: ExtendedAddress)
        ensures
            a@ == self.address(),
    {
        ExtendedAddress::new_split_ext_address(self.value, self.page)
    }

    /// Moves to `address` in the same bank.
    pub fn set(&mut self, address: u16)
        ensures
            final(self).offset_value() == address,
            final(self).bank() == old(self).bank(),
    {
        self.value = address;
    }

    /// Moves one byte up; the offset wraps inside the bank.
    pub fn increment(&mut self)
        ensures
            final(self).offset_value() == (old(self).offset_value() + 1) % 0x1_0000,
            final(self).bank() == old(self).bank(),
    {
        self.value = self.value.wrapping_add(1);
    }

    /// Moves `amount` bytes up; the offset wraps inside the bank.
    pub fn increment_amount(&mut self, amount: u16)
        ensures
            final(self).offset_value() == (old(self).offset_value() + amount) % 0x1_0000,
            final(self).bank() == old(self).bank(),
    {
        self.value = self.value.wrapping_add(amount);
    }

    /// Moves one byte down; the offset wraps inside the bank.
    pub fn decrement(&mut self)
        ensures
            final(self).offset_value() == (old(self).offset_value() - 1) % 0x1_0000,
            final(self).bank() == old(self).bank(),
    {
        self.value = self.value.wrapping_sub(1);
    }

    /// Moves by a signed byte; the offset wraps inside the bank.
    pub fn offset(&mut self, offset: i8)
        ensures
            final(self).offset_value() == (old(self).offset_value() + offset) % 0x1_0000,
            final(self).bank() == old(self).bank(),
    {
        let moved = self.get_offset(offset);
        self.value = moved.value;
    }

    /// The stack pointer `offset` bytes away, wrapping inside the bank.
    pub fn get_offset(&mut self, offset: i8) -> (r: StackAddress)
        ensures
            r.offset_value() == (old(self).offset_value() + offset) % 0x1_0000,
            r.bank() == old(self).bank(),
            *final(self) == *old(self),
    {
        let moved: i32 = self.value as i32 + offset as i32;
        let wrapped: i32 = if moved < 0 {
            moved + 0x1_0000
        } else if moved >= 0x1_0000 {
            moved - 0x1_0000
        } else {
            moved
        };
        StackAddress { value: wrapped as u16, page: self.page }
    }
}

impl From<StackAddress> for u32 {
    fn from(val: StackAddress) -> (r: u32) {
        (val.page as u32) * BANK_SIZE + (val.value as u32)
    }
}

impl vstd::std_specs::convert::FromSpecImpl<StackAddress> for u32 {
    open spec fn obeys_from_spec() -> bool {
        true
    }

    /// The number of the bus address that the stack pointer names.
    open spec fn from_spec(val: StackAddress) -> u32 {
        val.address() as u32
    }
}

impl From<StackAddress> for ExtendedAddress {
    fn from(value: StackAddress) -> (r: ExtendedAddress) {
        ExtendedAddress::new_split_ext_address(value.value, value.page)
    }
}

impl vstd::std_specs::convert::FromSpecImpl<StackAddress> for ExtendedAddress {
    open spec fn obeys_from_spec() -> bool {
        true
    }

    /// The bus address that the stack pointer names.
    open spec fn from_spec(value: StackAddress) -> ExtendedAddress {
        ExtendedAddress::at(value.address())
    }
}

} // verus!
