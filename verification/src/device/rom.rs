//! Read-only memory that holds a program image.

use vstd::prelude::*;
use crate::address::ExtendedAddress;
use crate::bits::lemma_join_bytes;
use crate::device::{AddressMappedDevice, AddressRange, DeviceResult, linear_read};

verus! {

/// `image` followed by as many zero bytes as it takes to reach `size` bytes.
pub open spec fn padded(image: Seq<u8>, size: nat) -> Seq<u8> {
    Seq::new(
        size,
        |i: int|
            if i < image.len() {
                image[i]
            } else {
                0u8
            },
    )
}

/// Why an image cannot be loaded.
#[derive(Debug, Clone, Copy, PartialEq, Eq, Structural)]
pub enum ImageError {
    /// The image has more bytes than the device has addresses.
    TooLong,
}

/// Memory that spans a range of addresses and refuses writes.
pub struct ROM {
    range: AddressRange,
    data: Vec<u8>,
}

impl View for ROM {
    type V = Seq<u8>;

    /// The bytes held, the one at the first address first.
    closed spec fn view(&self) -> Seq<u8> {
        self.data@
    }
}

impl ROM {
    /// The memory holds one byte for each address of its range.
    #[verifier::type_invariant]
    spec fn whole(self) -> bool {
        self.data@.len() == self.range.last() - self.range.first() + 1
    }

    /// The number of bytes held: one for each address of the range.
    pub fn len(&self) -> (n: usize)
        ensures
            n == self@.len(),
            n == self.last() - self.first() + 1,
    {
        proof {
            use_type_invariant(self);
        }
        self.data.len()
    }

    /// Read-only memory for the addresses `start ..= end` that holds `data`
    /// from its first address on and zeroes behind it. An image with more
    /// bytes than the range has addresses is refused.
    pub fn new(start: ExtendedAddress, end: ExtendedAddress, data: Vec<u8>) -> (res: Result<
        Self,
        ImageError,
    >)
        requires
            start@ <= end@,
        ensures
            data@.len() > end@ - start@ + 1 <==> res == Err::<Self, ImageError>(ImageError::TooLong),
            res matches Ok(rom) ==> {
                &&& rom.first() == start@
                &&& rom.last() == end@
                &&& rom@ == padded(data@, (end@ - start@ + 1) as nat)
            },
    {
        let range = AddressRange::new(start, end);
        let size = range.span() + 1;
        if data.len() > size {
            return Err(ImageError::TooLong);
        }
        let mut data = data;
        if data.len() != size {
            data.resize(size, 0u8);
        }
        Ok(ROM { range, data })
    }
}

impl AddressMappedDevice for ROM {
    closed spec fn first(&self) -> int {
        self.range.first()
    }

    closed spec fn last(&self) -> int {
        self.range.last()
    }

    open spec fn read_result(&self, address: int, word: bool) -> DeviceResult {
        linear_read(self.first(), self.last(), self@, address, word)
    }

    open spec fn write_result(&self, address: int, data: u16, word: bool) -> DeviceResult {
        if self.first() <= address <= self.last() {
            DeviceResult::ReadOnly
        } else {
            DeviceResult::NotMyAddress
        }
    }

    /// A read leaves the bytes as they are.
    open spec fn read_leaves(&self, after: &Self, address: int, word: bool) -> bool {
        after@ == self@
    }

    /// A write leaves the bytes as they are.
    open spec fn write_leaves(&self, after: &Self, address: int, data: u16, word: bool) -> bool {
        after@ == self@
    }

    /// Reads one byte, or two as a word with the upper byte first.
    fn read(&mut self, address: ExtendedAddress, word: bool) -> (res: DeviceResult)
    {
        proof {
            use_type_invariant(&*self);
        }
        if !self.range.contains(address) {
            return DeviceResult::NotMyAddress;
        }
        let index = self.range.relative(address);
        let last = self.range.span();
        if !word {
            DeviceResult::Ok8(self.data[index])
        } else if index < last {
            let high = self.data[index];
            let low = self.data[index + 1];
            proof {
                lemma_join_bytes(high, low);
            }
            DeviceResult::Ok16(((high as u16) << 8) | (low as u16))
        } else {
            DeviceResult::InvalidAddress
        }
    }

    /// Refuses the write and stays as it is.
    fn write(&mut self, address: ExtendedAddress, data: u16, word: bool) -> (res: DeviceResult)
        ensures
            *final(self) == *old(self),
    {
        if self.range.contains(address) {
            DeviceResult::ReadOnly
        } else {
            DeviceResult::NotMyAddress
        }
    }

    fn relative(&self, address: ExtendedAddress) -> (index: usize) {
        self.range.relative(address)
    }

    fn size(&self) -> (n: usize) {
        self.range.span()
    }

    fn start(&self) -> (a: ExtendedAddress) {
        self.range.start()
    }

    fn end(&self) -> (a: ExtendedAddress) {
        self.range.end()
    }
}

} // verus!
