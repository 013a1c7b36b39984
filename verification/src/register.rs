//! A general register: sixteen bits that can also be read and written as two
//! bytes.

use vstd::prelude::*;
use crate::bits::{join_bytes, high_byte, low_byte, lemma_join_bytes, lemma_split_word};

verus! {

/// A sixteen-bit register with its two halves and the word they form.
#[derive(Clone, Copy, Debug)]
pub struct Register {
    low: u8,
    high: u8,
    word: u16,
}

impl View for Register {
    type V = u16;

    /// A register stands for the word it holds.
    closed spec fn view(&self) -> u16 {
        self.word
    }
}

impl Register {
    #[verifier::type_invariant]
    spec fn coherent(self) -> bool {
        self.word == join_bytes(self.high, self.low)
    }

    /// A register that holds zero.
    pub fn new() -> (r: Self)
        ensures
            r@ == 0,
    {
        Register { low: 0, high: 0, word: 0 }
    }

    /// The lower byte.
    pub fn get_low(&self) -> (b: u8)
        ensures
            b == low_byte(self@),
    {
        proof {
            use_type_invariant(self);
            lemma_join_bytes(self.high, self.low);
        }
        self.low
    }

    /// The upper byte.
    pub fn get_high(&self) -> (b: u8)
        ensures
            b == high_byte(self@),
    {
        proof {
            use_type_invariant(self);
            lemma_join_bytes(self.high, self.low);
        }
        self.high
    }

    /// The word that the two halves form.
    pub fn get_word(&self) -> (w: u16)
        ensures
            w == self@,
    {
        self.word
    }

    /// Replaces the lower byte; the upper byte stays, and the word follows.
    pub fn set_low(&mut self, value: u8)
        ensures
            final(self)@ == join_bytes(high_byte(old(self)@), value),
            final(self)@ == ((high_byte(old(self)@) as u16) << 8) | (value as u16),
    {
        proof {
            use_type_invariant(&*self);
            lemma_join_bytes(self.high, self.low);
            lemma_join_bytes(self.high, value);
        }
        *self = Register {
            low: value,
            high: self.high,
            word: ((self.high as u16) << 8) | (value as u16),
        };
    }

    /// Replaces the upper byte; the lower byte stays, and the word follows.
    pub fn set_high(&mut self, value: u8)
        ensures
            final(self)@ == join_bytes(value, low_byte(old(self)@)),
            final(self)@ == ((value as u16) << 8) | (low_byte(old(self)@) as u16),
    {
        proof {
            use_type_invariant(&*self);
            lemma_join_bytes(self.high, self.low);
            lemma_join_bytes(value, self.low);
        }
        *self = Register {
            low: self.low,
            high: value,
            word: ((value as u16) << 8) | (self.low as u16),
        };
    }

    /// Replaces both halves.
    pub fn set_split_word(&mut self, high: u8, low: u8)
        ensures
            final(self)@ == join_bytes(high, low),
            final(self)@ == ((high as u16) << 8) | (low as u16),
    {
        proof {
            lemma_join_bytes(high, low);
        }
        *self = Register { low, high, word: ((high as u16) << 8) | (low as u16) };
    }

    /// Replaces the word; the halves follow.
    pub fn set_word(&mut self, value: u16)
        ensures
            final(self)@ == value,
    {
        proof {
            lemma_split_word(value);
        }
        *self = Register { low: value as u8, high: (value >> 8) as u8, word: value };
    }
}

/// Whatever a register held, once its upper byte was set to `high` and its
/// lower byte to `low`, in either order, it holds `(high << 8) | low`; and
/// setting one half leaves the other as it was.
pub proof fn lemma_halves_make_word(word: u16, high: u8, low: u8)
    ensures
        join_bytes(high_byte(join_bytes(high, low_byte(word))), low) == ((high as u16) << 8) | (
        low as u16),
        join_bytes(high, low_byte(join_bytes(high_byte(word), low))) == ((high as u16) << 8) | (
        low as u16),
        high_byte(join_bytes(high_byte(word), low)) == high_byte(word),
        low_byte(join_bytes(high, low_byte(word))) == low_byte(word),
{
    lemma_join_bytes(high, low_byte(word));
    lemma_join_bytes(high_byte(word), low);
    lemma_join_bytes(high, low);
}

} // verus!
