//! The status register: seven independent flags in the low bits of a word.

use vstd::prelude::*;

verus! {

/// One status flag.
#[derive(Clone, Copy, Debug, PartialEq, Eq, Structural)]
pub enum Flag {
    /// Zero.
    Z,
    /// Negative.
    N,
    /// Carry.
    C,
    /// Overflow.
    O,
    /// Less than.
    L,
    /// Greater than.
    G,
    /// Interrupt disable.
    I,
}

impl Flag {
    /// The bit that stands for the flag in the status register.
    pub open spec fn spec_mask(self) -> u16 {
        match self {
            Flag::Z => 0x01,
            Flag::N => 0x02,
            Flag::C => 0x04,
            Flag::O => 0x08,
            Flag::L => 0x10,
            Flag::G => 0x20,
            Flag::I => 0x40,
        }
    }

    /// The bit that stands for the flag in the status register.
    pub fn mask(self) -> (m: u16)
        ensures
            m == self.spec_mask(),
    {
        match self {
            Flag::Z => 0x01,
            Flag::N => 0x02,
            Flag::C => 0x04,
            Flag::O => 0x08,
            Flag::L => 0x10,
            Flag::G => 0x20,
            Flag::I => 0x40,
        }
    }
}

/// Whether `flag` is set in the status word `bits`.
pub open spec fn has_flag(bits: u16, flag: Flag) -> bool {
    bits & flag.spec_mask() == flag.spec_mask()
}

/// The status word `bits` with `flag` set (`on`) or cleared.
pub open spec fn with_flag(bits: u16, flag: Flag, on: bool) -> u16 {
    if on {
        bits | flag.spec_mask()
    } else {
        bits & !flag.spec_mask()
    }
}

proof fn lemma_mask_bits(bits: u16, m: u16, n: u16)
    requires
        m != 0,
        m & n == 0,
    ensures
        (bits | m) & m == m,
        (bits & !m) & m != m,
        ((bits | m) & n == n) == (bits & n == n),
        ((bits & !m) & n == n) == (bits & n == n),
{
    assert(m != 0 && m & n == 0 ==> ((bits | m) & m == m && (bits & !m) & m != m && (((bits | m) & n
        == n) == (bits & n == n)) && (((bits & !m) & n == n) == (bits & n == n))))
        by (bit_vector);
}

proof fn lemma_masks_apart(f: Flag, g: Flag)
    ensures
        f.spec_mask() != 0,
        f != g ==> f.spec_mask() & g.spec_mask() == 0,
        f.spec_mask() & 0 == 0,
{
    let m = f.spec_mask();
    let n = g.spec_mask();
    assert(m & 0 == 0 && (m != n ==> m & n == 0)) by (bit_vector)
        requires
            m == 1 || m == 2 || m == 4 || m == 8 || m == 16 || m == 32 || m == 64,
            n == 1 || n == 2 || n == 4 || n == 8 || n == 16 || n == 32 || n == 64,
    ;
}

/// Setting or clearing one flag decides that flag and leaves every other flag
/// as it was.
pub proof fn lemma_with_flag(bits: u16, flag: Flag, on: bool, other: Flag)
    ensures
        has_flag(with_flag(bits, flag, on), other) == (if other == flag {
            on
        } else {
            has_flag(bits, other)
        }),
{
    lemma_masks_apart(flag, other);
    if other == flag {
        lemma_mask_bits(bits, flag.spec_mask(), 0);
    } else {
        lemma_mask_bits(bits, flag.spec_mask(), other.spec_mask());
    }
}

/// No flag is set in the empty status word.
pub proof fn lemma_no_flag_in_zero(flag: Flag)
    ensures
        !has_flag(0, flag),
{
    let m = flag.spec_mask();
    lemma_masks_apart(flag, flag);
    assert(0u16 & m == 0) by (bit_vector);
}

/// The status register.
#[derive(Clone, Copy, Debug)]
pub struct Flags {
    bits: u16,
}

impl View for Flags {
    type V = u16;

    /// The status register stands for its sixteen bits.
    closed spec fn view(&self) -> u16 {
        self.bits
    }
}

impl Flags {
    /// A status register with no flag set.
    pub fn empty() -> (r: Self)
        ensures
            r@ == 0,
    {
        Flags { bits: 0 }
    }

    /// A status register that holds `bits`.
    pub fn from_bits(bits: u16) -> (r: Self)
        ensures
            r@ == bits,
    {
        Flags { bits }
    }

    /// The sixteen bits of the status register.
    pub fn bits(&self) -> (b: u16)
        ensures
            b == self@,
    {
        self.bits
    }

    /// Whether `flag` is set.
    pub fn contains(&self, flag: Flag) -> (b: bool)
        ensures
            b == has_flag(self@, flag),
    {
        let m = flag.mask();
        self.bits & m == m
    }

    /// Sets `flag` (`value`) or clears it.
    pub fn set(&mut self, flag: Flag, value: bool)
        ensures
            final(self)@ == with_flag(old(self)@, flag, value),
    {
        if value {
            self.bits = self.bits | flag.mask();
        } else {
            self.bits = self.bits & !flag.mask();
        }
    }
}

} // verus!
