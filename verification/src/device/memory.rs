//! Read-write or read-only memory behind one type, for a bus that holds both.

use vstd::prelude::*;
use crate::address::ExtendedAddress;
use crate::device::{AddressMappedDevice, DeviceResult, RAM, ROM};

verus! {

/// A memory of either kind.
pub enum Memory {
    Ram(RAM),
    Rom(ROM),
}

impl View for Memory {
    type V = Seq<u8>;

    /// The bytes held, the one at the first address first.
    open spec fn view(&self) -> Seq<u8> {
        match self {
            Memory::Ram(ram) => ram@,
            Memory::Rom(rom) => rom@,
        }
    }
}

impl AddressMappedDevice for Memory {
    open spec fn first(&self) -> int {
        match self {
            Memory::Ram(ram) => ram.first(),
            Memory::Rom(rom) => rom.first(),
        }
    }

    open spec fn last(&self) -> int {
        match self {
            Memory::Ram(ram) => ram.last(),
            Memory::Rom(rom) => rom.last(),
        }
    }

    open spec fn read_result(&self, address: int, word: bool) -> DeviceResult {
        match self {
            Memory::Ram(ram) => ram.read_result(address, word),
            Memory::Rom(rom) => rom.read_result(address, word),
        }
    }

    open spec fn write_result(&self, address: int, data: u16, word: bool) -> DeviceResult {
        match self {
            Memory::Ram(ram) => ram.write_result(address, data, word),
            Memory::Rom(rom) => rom.write_result(address, data, word),
        }
    }

    /// A read leaves the bytes, and the kind of the memory, as they are.
    open spec fn read_leaves(&self, after: &Self, address: int, word: bool) -> bool {
        &&& after@ == self@
        &&& (*after is Ram) == (*self is Ram)
    }

    /// A write that is taken stores the data as `store` says; any other
    /// leaves the bytes as they are. The kind of the memory stays.
    open spec fn write_leaves(&self, after: &Self, address: int, data: u16, word: bool) -> bool {
        &&& (*after is Ram) == (*self is Ram)
        &&& after@ == (if self.write_result(address, data, word) == DeviceResult::Done {
            crate::device::store(self@, address - self.first(), data, word)
        } else {
            self@
        })
    }

    /// Reads from the memory.
    fn read(&mut self, address: ExtendedAddress, word: bool) -> (res: DeviceResult)
    {
        match self {
            Memory::Ram(ram) => ram.read(address, word),
            Memory::Rom(rom) => rom.read(address, word),
        }
    }

    /// Writes to read-write memory; read-only memory refuses.
    fn write(&mut self, address: ExtendedAddress, data: u16, word: bool) -> (res: DeviceResult)
    {
        match self {
            Memory::Ram(ram) => ram.write(address, data, word),
            Memory::Rom(rom) => rom.write(address, data, word),
        }
    }

    fn relative(&self, address: ExtendedAddress) -> (index: usize) {
        match self {
            Memory::Ram(ram) => ram.relative(address),
            Memory::Rom(rom) => rom.relative(address),
        }
    }

    fn size(&self) -> (n: usize) {
        match self {
            Memory::Ram(ram) => ram.size(),
            Memory::Rom(rom) => rom.size(),
        }
    }

    fn start(&self) -> (a: ExtendedAddress) {
        match self {
            Memory::Ram(ram) => ram.start(),
            Memory::Rom(rom) => rom.start(),
        }
    }

    fn end(&self) -> (a: ExtendedAddress) {
        match self {
            Memory::Ram(ram) => ram.end(),
            Memory::Rom(rom) => rom.end(),
        }
    }
}

} // verus!
