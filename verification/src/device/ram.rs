//! Read-write memory.

use vstd::prelude::*;
use crate::address::ExtendedAddress;
use crate::bits::{lemma_join_bytes, lemma_split_word};
use crate::device::{
    AddressMappedDevice, AddressRange, DeviceResult, linear_read, linear_write, store,
};

verus! {

/// Memory that spans a range of addresses and starts out as zeroes.
pub struct RAM {
    range: AddressRange,
    data: Vec<u8>,
}

impl View for RAM {
    type V = Seq<u8>;

    /// The bytes held, the one at the first address first.
    closed spec fn view(&self) -> Seq<u8> {
        self.data@
    }
}

impl RAM {
    /// The memory holds one byte for each address of its range.
    #[verifier::type_invariant]
    spec fn whole(self) -> bool {
        self.data@.len() == self.range.last() - self.range.first() + 1
    }

    /// The number of bytes held: one for each address of the range.
    pub fn len(&self) -> (n: usize)
        ensures
            n == self@.len(),
            n == self.last() - self.first() + 1,
    {
        proof {
            use_type_invariant(self);
        }
        self.data.len()
    }

    /// Memory for the addresses `start ..= end`, all zero.
    pub fn new(start: ExtendedAddress, end: ExtendedAddress) -> (ram: Self)
        requires
            start@ <= end@,
        ensures
            ram.first() == start@,
            ram.last() == end@,
            ram@ == Seq::new((end@ - start@ + 1) as nat, |i: int| 0u8),
    {
        let range = AddressRange::new(start, end);
        let n = range.span() + 1;
        let data = vec![0u8; n];
        RAM { range, data }
    }

    /// The byte at distance `index` from the first address, if there is one.
    pub fn peek(&self, index: usize) -> (b: Option<u8>)
        ensures
            b == (if index < self@.len() {
                Some(self@[index as int])
            } else {
                None
            }),
    {
        if index < self.data.len() {
            Some(self.data[index])
        } else {
            None
        }
    }

    /// Puts `value` at distance `index` from the first address; says whether
    /// there is such a byte.
    pub fn poke(&mut self, index: usize, value: u8) -> (done: bool)
        ensures
            done == (index < old(self)@.len()),
            final(self)@ == (if done {
                old(self)@.update(index as int, value)
            } else {
                old(self)@
            }),
            final(self).first() == old(self).first(),
            final(self).last() == old(self).last(),
    {
        proof {
            use_type_invariant(&*self);
        }
        if index < self.data.len() {
            self.data[index] = value;
            true
        } else {
            false
        }
    }
}

impl AddressMappedDevice for RAM {
    closed spec fn first(&self) -> int {
        self.range.first()
    }

    closed spec fn last(&self) -> int {
        self.range.last()
    }

    open spec fn read_result(&self, address: int, word: bool) -> DeviceResult {
        linear_read(self.first(), self.last(), self@, address, word)
    }

    open spec fn write_result(&self, address: int, data: u16, word: bool) -> DeviceResult {
        linear_write(self.first(), self.last(), address, word)
    }

    /// A read leaves the bytes as they are.
    open spec fn read_leaves(&self, after: &Self, address: int, word: bool) -> bool {
        after@ == self@
    }

    /// A write that is taken stores the data as `store` says; any other
    /// leaves the bytes as they are.
    open spec fn write_leaves(&self, after: &Self, address: int, data: u16, word: bool) -> bool {
        after@ == (if self.write_result(address, data, word) == DeviceResult::Done {
            store(self@, address - self.first(), data, word)
        } else {
            self@
        })
    }

    /// Reads one byte, or two as a word with the upper byte first.
    fn read(&mut self, address: ExtendedAddress, word: bool) -> (res: DeviceResult)
    {
        proof {
            use_type_invariant(&*self);
        }
        if !self.range.contains(address) {
            return DeviceResult::NotMyAddress;
        }
        let index = self.range.relative(address);
        let last = self.range.span();
        if !word {
            DeviceResult::Ok8(self.data[index])
        } else if index < last {
            let high = self.data[index];
            let low = self.data[index + 1];
            proof {
                lemma_join_bytes(high, low);
            }
            DeviceResult::Ok16(((high as u16) << 8) | (low as u16))
        } else {
            DeviceResult::InvalidAddress
        }
    }

    /// Writes one byte, or a word as two bytes with the upper byte first, and
    /// changes no other byte.
    fn write(&mut self, address: ExtendedAddress, data: u16, word: bool) -> (res: DeviceResult)
    {
        proof {
            use_type_invariant(&*self);
            lemma_split_word(data);
        }
        if !self.range.contains(address) {
            return DeviceResult::NotMyAddress;
        }
        let index = self.range.relative(address);
        let last = self.range.span();
        if !word {
            self.data[index] = data as u8;
            DeviceResult::Done
        } else if index < last {
            self.data[index] = ((data & 0xFF00) >> 8) as u8;
            self.data[index + 1] = data as u8;
            DeviceResult::Done
        } else {
            DeviceResult::InvalidAddress
        }
    }

    fn relative(&self, address: ExtendedAddress) -> (index: usize) {
        self.range.relative(address)
    }

    fn size(&self) -> (n: usize) {
        self.range.span()
    }

    fn start(&self) -> (a: ExtendedAddress) {
        self.range.start()
    }

    fn end(&self) -> (a: ExtendedAddress) {
        self.range.end()
    }
}

} // verus!
