//! What the engine expects of the devices on its two buses, and how a bus
//! picks the device that answers.

pub mod ram;
pub mod rom;
pub mod out;
pub mod memory;

pub use ram::RAM;
pub use rom::ROM;
pub use out::Out;
pub use memory::Memory;

use vstd::prelude::*;
use crate::address::ExtendedAddress;
use crate::bits::{join_bytes, high_byte, low_byte};

verus! {

/// How a device answers a bus transaction.
#[derive(Debug, Clone, Copy, PartialEq, Eq, Structural)]
pub enum DeviceResult {
    /// A write was taken.
    Done,
    /// A byte was read.
    Ok8(u8),
    /// A word was read.
    Ok16(u16),
    /// The address belongs to another device.
    NotMyAddress,
    /// The device cannot be written.
    ReadOnly,
    /// The device cannot be read.
    WriteOnly,
    /// The device owns the address but cannot serve the access there.
    InvalidAddress,
    /// The file behind the device does not exist.
    FileNotFound,
    /// The file behind the device cannot be read.
    CannotReadFile,
    /// No device on the bus owns the address.
    NoValidDevice,
}

/// What a linear byte store that spans `start ..= end`, with one byte for
/// each address, answers to a read: a byte, or the word made of two
/// neighbouring bytes, upper byte first. A word that would reach past the last
/// address is not served.
pub open spec fn linear_read(start: int, end: int, bytes: Seq<u8>, address: int, word: bool)
    -> DeviceResult {
    if address < start || address > end {
        DeviceResult::NotMyAddress
    } else if !word {
        DeviceResult::Ok8(bytes[address - start])
    } else if address < end {
        DeviceResult::Ok16(join_bytes(bytes[address - start], bytes[address - start + 1]))
    } else {
        DeviceResult::InvalidAddress
    }
}

/// What a writable linear byte store that spans `start ..= end` answers to a
/// write: it takes every byte in its range, and every word but one that would
/// reach past the last address.
pub open spec fn linear_write(start: int, end: int, address: int, word: bool) -> DeviceResult {
    if address < start || address > end {
        DeviceResult::NotMyAddress
    } else if word && address == end {
        DeviceResult::InvalidAddress
    } else {
        DeviceResult::Done
    }
}

/// The bytes of a store after `data` was written at index `at`: its low byte,
/// or the whole word as two bytes with the upper byte first. No other byte
/// changes.
pub open spec fn store(bytes: Seq<u8>, at: int, data: u16, word: bool) -> Seq<u8> {
    if word {
        bytes.update(at, high_byte(data)).update(at + 1, low_byte(data))
    } else {
        bytes.update(at, low_byte(data))
    }
}

/// A store touches exactly the bytes it writes: one for a byte, two for a
/// word, the upper byte of the word at the lower address. The length and
/// every other byte stay, so a byte-wide store does not disturb its
/// neighbours.
pub proof fn lemma_store_touches(bytes: Seq<u8>, at: int, data: u16, word: bool, other: int)
    requires
        0 <= at,
        at + (if word {
            1int
        } else {
            0int
        }) < bytes.len(),
        0 <= other < bytes.len(),
    ensures
        store(bytes, at, data, word).len() == bytes.len(),
        word ==> store(bytes, at, data, word)[at] == high_byte(data) && store(
            bytes,
            at,
            data,
            word,
        )[at + 1] == low_byte(data),
        !word ==> store(bytes, at, data, word)[at] == low_byte(data),
        other < at || other > at + (if word {
            1int
        } else {
            0int
        }) ==> store(bytes, at, data, word)[other] == bytes[other],
{
}

/// What was stored in a linear byte store is read back from it: the word as
/// it was written, or the low byte of what was written.
pub proof fn lemma_read_after_store(
    start: int,
    end: int,
    bytes: Seq<u8>,
    address: int,
    data: u16,
    word: bool,
)
    requires
        linear_write(start, end, address, word) == DeviceResult::Done,
        bytes.len() == end - start + 1,
    ensures
        linear_read(start, end, store(bytes, address - start, data, word), address, word) == (
        if word {
            DeviceResult::Ok16(data)
        } else {
            DeviceResult::Ok8(low_byte(data))
        }),
{
    crate::bits::lemma_split_word(data);
}

/// A range of bus addresses from a first to a last one.
#[derive(Clone, Copy, Debug)]
pub struct AddressRange {
    start: ExtendedAddress,
    end: ExtendedAddress,
}

impl AddressRange {
    #[verifier::type_invariant]
    spec fn ordered(self) -> bool {
        self.start@ <= self.end@
    }

    /// The first address of the range.
    pub closed spec fn first(self) -> int {
        self.start@
    }

    /// The last address of the range.
    pub closed spec fn last(self) -> int {
        self.end@
    }

    /// The range `start ..= end`.
    pub fn new(start: ExtendedAddress, end: ExtendedAddress) -> (r: Self)
        requires
            start@ <= end@,
        ensures
            r.first() == start@,
            r.last() == end@,
    {
        AddressRange { start, end }
    }

    /// The first address of the range.
    pub fn start(&self) -> (a: ExtendedAddress)
        ensures
            a@ == self.first(),
    {
        self.start
    }

    /// The last address of the range.
    pub fn end(&self) -> (a: ExtendedAddress)
        ensures
            a@ == self.last(),
    {
        self.end
    }

    /// The distance from the first address to the last.
    pub fn span(&self) -> (n: usize)
        ensures
            n == self.last() - self.first(),
            0 <= self.first() <= self.last() < 0x100_0000,
    {
        proof {
            use_type_invariant(self);
        }
        (self.end.value() - self.start.value()) as usize
    }

    /// Whether `address` lies in the range.
    pub fn contains(&self, address: ExtendedAddress) -> (b: bool)
        ensures
            b == (self.first() <= address@ <= self.last()),
    {
        self.start.value() <= address.value() && address.value() <= self.end.value()
    }

    /// The distance of `address` from the first address.
    pub fn relative(&self, address: ExtendedAddress) -> (index: usize)
        requires
            self.first() <= address@,
        ensures
            index == address@ - self.first(),
    {
        (address.value() - self.start.value()) as usize
    }
}

/// A device that owns a range of bus addresses.
pub trait AddressMappedDevice: Sized {
    /// The first address that the device owns. A device that is not verified
    /// leaves this, and the three that follow, unsaid.
    open spec fn first(&self) -> int {
        arbitrary()
    }

    /// The last address that the device owns.
    open spec fn last(&self) -> int {
        arbitrary()
    }

    /// What the device, as it stands, answers to a read.
    open spec fn read_result(&self, address: int, word: bool) -> DeviceResult {
        arbitrary()
    }

    /// What the device, as it stands, answers to a write.
    open spec fn write_result(&self, address: int, data: u16, word: bool) -> DeviceResult {
        arbitrary()
    }

    /// Whether `after` is what a read leaves of the device.
    open spec fn read_leaves(&self, after: &Self, address: int, word: bool) -> bool {
        true
    }

    /// Whether `after` is what a write leaves of the device.
    open spec fn write_leaves(&self, after: &Self, address: int, data: u16, word: bool) -> bool {
        true
    }

    /// Reads a byte, or a word where `word` holds, at `address`. A device that
    /// passes the address on stays as it is; no device moves in the address
    /// space.
    fn read(&mut self, address: ExtendedAddress, word: bool) -> (res: DeviceResult)
        ensures
            res == old(self).read_result(address@, word),
            old(self).read_leaves(final(self), address@, word),
            res == DeviceResult::NotMyAddress ==> *final(self) == *old(self),
            final(self).first() == old(self).first(),
            final(self).last() == old(self).last(),
    ;

    /// Writes the low byte of `data`, or all of it where `word` holds, at
    /// `address`. A device that passes the address on stays as it is; no
    /// device moves in the address space.
    fn write(&mut self, address: ExtendedAddress, data: u16, word: bool) -> (res: DeviceResult)
        ensures
            res == old(self).write_result(address@, data, word),
            old(self).write_leaves(final(self), address@, data, word),
            res == DeviceResult::NotMyAddress ==> *final(self) == *old(self),
            final(self).first() == old(self).first(),
            final(self).last() == old(self).last(),
    ;

    /// The distance of `address` from the device's first address.
    fn relative(&self, address: ExtendedAddress) -> (index: usize)
        requires
            self.first() <= address@,
        ensures
            index == address@ - self.first(),
    ;

    /// The distance from the device's first address to its last.
    fn size(&self) -> (n: usize)
        ensures
            n == self.last() - self.first(),
    ;

    /// The first address that the device owns.
    fn start(&self) -> (a: ExtendedAddress)
        ensures
            a@ == self.first(),
    ;

    /// The last address that the device owns.
    fn end(&self) -> (a: ExtendedAddress)
        ensures
            a@ == self.last(),
    ;
}

/// A device that answers at one port of the input/output bus.
pub trait IOMappedDevice: Sized {
    /// The port of the device. A device that is not verified leaves this, and
    /// the two that follow, unsaid.
    open spec fn port(&self) -> u8 {
        arbitrary()
    }

    /// What the device, as it stands, answers to a read.
    open spec fn io_read_result(&self) -> DeviceResult {
        arbitrary()
    }

    /// What the device, as it stands, answers to a write.
    open spec fn io_write_result(&self, data: u8) -> DeviceResult {
        arbitrary()
    }

    /// The port of the device.
    fn io_address(&self) -> (a: u8)
        ensures
            a == self.port(),
    ;

    /// Whether `after` is what a read leaves of the device.
    open spec fn io_read_leaves(&self, after: &Self) -> bool {
        true
    }

    /// Whether `after` is what a write of `data` leaves of the device.
    open spec fn io_write_leaves(&self, after: &Self, data: u8) -> bool {
        true
    }

    /// Reads a byte from the device, which stays at its port.
    fn io_read(&mut self) -> (res: DeviceResult)
        ensures
            res == old(self).io_read_result(),
            old(self).io_read_leaves(final(self)),
            final(self).port() == old(self).port(),
    ;

    /// Writes a byte to the device, which stays at its port.
    fn io_write(&mut self, data: u8) -> (res: DeviceResult)
        ensures
            res == old(self).io_write_result(data),
            old(self).io_write_leaves(final(self), data),
            final(self).port() == old(self).port(),
    ;

    /// A name for the device, for messages.
    fn io_name(&self) -> (name: &str);
}

/// What the address bus answers to a read: the answer of the first device, in
/// the order of `devices`, that does not pass the address on.
pub open spec fn scan_read<D: AddressMappedDevice>(devices: Seq<D>, address: int, word: bool)
    -> DeviceResult
    decreases devices.len(),
{
    if devices.len() == 0 {
        DeviceResult::NoValidDevice
    } else if devices[0].read_result(address, word) != DeviceResult::NotMyAddress {
        devices[0].read_result(address, word)
    } else {
        scan_read(devices.subrange(1, devices.len() as int), address, word)
    }
}

/// What the address bus answers to a write: the answer of the first device, in
/// the order of `devices`, that does not pass the address on.
pub open spec fn scan_write<D: AddressMappedDevice>(
    devices: Seq<D>,
    address: int,
    data: u16,
    word: bool,
) -> DeviceResult
    decreases devices.len(),
{
    if devices.len() == 0 {
        DeviceResult::NoValidDevice
    } else if devices[0].write_result(address, data, word) != DeviceResult::NotMyAddress {
        devices[0].write_result(address, data, word)
    } else {
        scan_write(devices.subrange(1, devices.len() as int), address, data, word)
    }
}

/// What the input/output bus answers to a read: the answer of the first
/// device, in the order of `devices`, whose port is `port`.
pub open spec fn scan_io_read<P: IOMappedDevice>(devices: Seq<P>, port: u8) -> DeviceResult
    decreases devices.len(),
{
    if devices.len() == 0 {
        DeviceResult::NoValidDevice
    } else if devices[0].port() == port {
        devices[0].io_read_result()
    } else {
        scan_io_read(devices.subrange(1, devices.len() as int), port)
    }
}

/// What the input/output bus answers to a write: the answer of the first
/// device, in the order of `devices`, whose port is `port`.
pub open spec fn scan_io_write<P: IOMappedDevice>(devices: Seq<P>, port: u8, data: u8)
    -> DeviceResult
    decreases devices.len(),
{
    if devices.len() == 0 {
        DeviceResult::NoValidDevice
    } else if devices[0].port() == port {
        devices[0].io_write_result(data)
    } else {
        scan_io_write(devices.subrange(1, devices.len() as int), port, data)
    }
}

/// The place of the device that answers a read on the address bus: the first
/// that does not pass the address on, or the number of devices if all do.
pub open spec fn read_claimant<D: AddressMappedDevice>(devices: Seq<D>, address: int, word: bool)
    -> int
    decreases devices.len(),
{
    if devices.len() == 0 {
        0
    } else if devices[0].read_result(address, word) != DeviceResult::NotMyAddress {
        0
    } else {
        1 + read_claimant(devices.subrange(1, devices.len() as int), address, word)
    }
}

/// The place of the device that answers a write on the address bus: the first
/// that does not pass the address on, or the number of devices if all do.
pub open spec fn write_claimant<D: AddressMappedDevice>(
    devices: Seq<D>,
    address: int,
    data: u16,
    word: bool,
) -> int
    decreases devices.len(),
{
    if devices.len() == 0 {
        0
    } else if devices[0].write_result(address, data, word) != DeviceResult::NotMyAddress {
        0
    } else {
        1 + write_claimant(devices.subrange(1, devices.len() as int), address, data, word)
    }
}

/// The place of the first device at the port `port`, or the number of devices
/// if there is none.
pub open spec fn port_owner<P: IOMappedDevice>(devices: Seq<P>, port: u8) -> int
    decreases devices.len(),
{
    if devices.len() == 0 {
        0
    } else if devices[0].port() == port {
        0
    } else {
        1 + port_owner(devices.subrange(1, devices.len() as int), port)
    }
}

/// Reads from the first device of `devices` that owns `address`. The devices
/// are asked in order; those behind the one that answers are not touched.
pub fn read_devices<D: AddressMappedDevice>(
    devices: &mut Vec<D>,
    address: ExtendedAddress,
    word: bool,
) -> (res: DeviceResult)
    ensures
        res == scan_read(old(devices)@, address@, word),
        final(devices)@.len() == old(devices)@.len(),
        forall|j: int|
            0 <= j < old(devices)@.len() && j != read_claimant(old(devices)@, address@, word)
                ==> final(devices)@[j] == old(devices)@[j],
        read_claimant(old(devices)@, address@, word) < old(devices)@.len() ==> old(
            devices,
        )@[read_claimant(old(devices)@, address@, word)].read_leaves(
            &final(devices)@[read_claimant(old(devices)@, address@, word)],
            address@,
            word,
        ),
{
    let mut i: usize = 0;
    assert(devices@.subrange(0, devices@.len() as int) =~= devices@);
    while i < devices.len()
        invariant
            i <= devices.len(),
            devices@.len() == old(devices)@.len(),
            forall|j: int| 0 <= j < devices@.len() ==> devices@[j] == old(devices)@[j],
            scan_read(old(devices)@, address@, word) == scan_read(
                old(devices)@.subrange(i as int, old(devices)@.len() as int),
                address@,
                word,
            ),
            read_claimant(old(devices)@, address@, word) == i + read_claimant(
                old(devices)@.subrange(i as int, old(devices)@.len() as int),
                address@,
                word,
            ),
        decreases devices.len() - i,
    {
        let ghost rest = old(devices)@.subrange(i as int, old(devices)@.len() as int);
        assert(rest.subrange(1, rest.len() as int) == old(devices)@.subrange(
            i + 1,
            old(devices)@.len() as int,
        ));
        let res = devices[i].read(address, word);
        if res != DeviceResult::NotMyAddress {
            return res;
        }
        i += 1;
    }
    DeviceResult::NoValidDevice
}

/// Writes to the first device of `devices` that owns `address`. The devices
/// are asked in order; those behind the one that answers are not touched.
pub fn write_devices<D: AddressMappedDevice>(
    devices: &mut Vec<D>,
    address: ExtendedAddress,
    data: u16,
    word: bool,
) -> (res: DeviceResult)
    ensures
        res == scan_write(old(devices)@, address@, data, word),
        final(devices)@.len() == old(devices)@.len(),
        forall|j: int|
            0 <= j < old(devices)@.len() && j != write_claimant(
                old(devices)@,
                address@,
                data,
                word,
            ) ==> final(devices)@[j] == old(devices)@[j],
        write_claimant(old(devices)@, address@, data, word) < old(devices)@.len() ==> old(
            devices,
        )@[write_claimant(old(devices)@, address@, data, word)].write_leaves(
            &final(devices)@[write_claimant(old(devices)@, address@, data, word)],
            address@,
            data,
            word,
        ),
{
    let mut i: usize = 0;
    assert(devices@.subrange(0, devices@.len() as int) =~= devices@);
    while i < devices.len()
        invariant
            i <= devices.len(),
            devices@.len() == old(devices)@.len(),
            forall|j: int| 0 <= j < devices@.len() ==> devices@[j] == old(devices)@[j],
            scan_write(old(devices)@, address@, data, word) == scan_write(
                old(devices)@.subrange(i as int, old(devices)@.len() as int),
                address@,
                data,
                word,
            ),
            write_claimant(old(devices)@, address@, data, word) == i + write_claimant(
                old(devices)@.subrange(i as int, old(devices)@.len() as int),
                address@,
                data,
                word,
            ),
        decreases devices.len() - i,
    {
        let ghost rest = old(devices)@.subrange(i as int, old(devices)@.len() as int);
        assert(rest.subrange(1, rest.len() as int) == old(devices)@.subrange(
            i + 1,
            old(devices)@.len() as int,
        ));
        let res = devices[i].write(address, data, word);
        if res != DeviceResult::NotMyAddress {
            return res;
        }
        i += 1;
    }
    DeviceResult::NoValidDevice
}

/// Reads from the first device of `devices` at `port`. No other device is
/// touched.
pub fn read_io_devices<P: IOMappedDevice>(devices: &mut Vec<P>, port: u8) -> (res: DeviceResult)
    ensures
        res == scan_io_read(old(devices)@, port),
        final(devices)@.len() == old(devices)@.len(),
        forall|j: int|
            0 <= j < old(devices)@.len() && j != port_owner(old(devices)@, port)
                ==> final(devices)@[j] == old(devices)@[j],
        port_owner(old(devices)@, port) < old(devices)@.len() ==> old(devices)@[port_owner(
            old(devices)@,
            port,
        )].io_read_leaves(&final(devices)@[port_owner(old(devices)@, port)]),
{
    let mut i: usize = 0;
    assert(devices@.subrange(0, devices@.len() as int) =~= devices@);
    while i < devices.len()
        invariant
            i <= devices.len(),
            devices@ == old(devices)@,
            scan_io_read(old(devices)@, port) == scan_io_read(
                old(devices)@.subrange(i as int, old(devices)@.len() as int),
                port,
            ),
            port_owner(old(devices)@, port) == i + port_owner(
                old(devices)@.subrange(i as int, old(devices)@.len() as int),
                port,
            ),
        decreases devices.len() - i,
    {
        let ghost rest = old(devices)@.subrange(i as int, old(devices)@.len() as int);
        assert(rest.subrange(1, rest.len() as int) == old(devices)@.subrange(
            i + 1,
            old(devices)@.len() as int,
        ));
        if devices[i].io_address() == port {
            return devices[i].io_read();
        }
        i += 1;
    }
    DeviceResult::NoValidDevice
}

/// Writes to the first device of `devices` at `port`. No other device is
/// touched.
pub fn write_io_devices<P: IOMappedDevice>(devices: &mut Vec<P>, port: u8, data: u8) -> (res:
    DeviceResult)
    ensures
        res == scan_io_write(old(devices)@, port, data),
        final(devices)@.len() == old(devices)@.len(),
        forall|j: int|
            0 <= j < old(devices)@.len() && j != port_owner(old(devices)@, port)
                ==> final(devices)@[j] == old(devices)@[j],
        port_owner(old(devices)@, port) < old(devices)@.len() ==> old(devices)@[port_owner(
            old(devices)@,
            port,
        )].io_write_leaves(&final(devices)@[port_owner(old(devices)@, port)], data),
{
    let mut i: usize = 0;
    assert(devices@.subrange(0, devices@.len() as int) =~= devices@);
    while i < devices.len()
        invariant
            i <= devices.len(),
            devices@ == old(devices)@,
            scan_io_write(old(devices)@, port, data) == scan_io_write(
                old(devices)@.subrange(i as int, old(devices)@.len() as int),
                port,
                data,
            ),
            port_owner(old(devices)@, port) == i + port_owner(
                old(devices)@.subrange(i as int, old(devices)@.len() as int),
                port,
            ),
        decreases devices.len() - i,
    {
        let ghost rest = old(devices)@.subrange(i as int, old(devices)@.len() as int);
        assert(rest.subrange(1, rest.len() as int) == old(devices)@.subrange(
            i + 1,
            old(devices)@.len() as int,
        ));
        if devices[i].io_address() == port {
            return devices[i].io_write(data);
        }
        i += 1;
    }
    DeviceResult::NoValidDevice
}

} // verus!
