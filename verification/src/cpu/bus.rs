//! The engine's two buses: the devices on them, and what serving a
//! transaction means.

use vstd::prelude::*;
use crate::address::ExtendedAddress;
use crate::cpu::CPU;
use crate::device::{
    AddressMappedDevice, DeviceResult, IOMappedDevice, read_devices, write_devices,
    read_io_devices, write_io_devices, read_claimant, write_claimant, port_owner, scan_read,
    scan_write, scan_io_read, scan_io_write,
};
use crate::pins::{Pins, PinsModel, ReadWrite};

verus! {

/// What the caller owes the engine after a cycle: the data for a read, or
/// nothing for a write, on each bus that is on; or the answer of the device
/// that could not serve.
pub open spec fn resolved<D: AddressMappedDevice, P: IOMappedDevice>(
    pins: PinsModel,
    word: bool,
    devices: Seq<D>,
    io_devices: Seq<P>,
) -> Result<PinsModel, DeviceResult> {
    match bus_resolved(pins, word, devices) {
        Ok(p) => io_resolved(p, io_devices),
        Err(answer) => Err(answer),
    }
}

/// What serving the address bus makes of the devices on it: none changes
/// while the bus is off; else only the device that answers may change, as its
/// own account of a read or a write says.
pub open spec fn devices_served<D: AddressMappedDevice>(
    pins: PinsModel,
    word: bool,
    before: Seq<D>,
    after: Seq<D>,
) -> bool {
    let claimant = if pins.rw == ReadWrite::Read {
        read_claimant(before, pins.address, word)
    } else {
        write_claimant(before, pins.address, pins.data, word)
    };
    &&& after.len() == before.len()
    &&& !pins.bus_enable ==> after == before
    &&& forall|j: int| 0 <= j < before.len() && j != claimant ==> after[j] == before[j]
    &&& pins.bus_enable && claimant < before.len() ==> (if pins.rw == ReadWrite::Read {
        before[claimant].read_leaves(&after[claimant], pins.address, word)
    } else {
        before[claimant].write_leaves(&after[claimant], pins.address, pins.data, word)
    })
}

/// What serving the input/output bus makes of the devices on it, after the
/// address bus was served as `served` says: none changes where the address
/// bus failed or the input/output bus is off; else only the device at the
/// port may change, as its own account of a read or a write says.
pub open spec fn io_devices_served<P: IOMappedDevice>(
    served: Result<PinsModel, DeviceResult>,
    before: Seq<P>,
    after: Seq<P>,
) -> bool {
    &&& after.len() == before.len()
    &&& match served {
        Err(_) => after == before,
        Ok(pins) => {
            let owner = port_owner(before, pins.io_address);
            &&& !pins.io_enable ==> after == before
            &&& forall|j: int| 0 <= j < before.len() && j != owner ==> after[j] == before[j]
            &&& pins.io_enable && owner < before.len() ==> (if pins.io_rw == ReadWrite::Read {
                before[owner].io_read_leaves(&after[owner])
            } else {
                before[owner].io_write_leaves(&after[owner], pins.io_data)
            })
        },
    }
}

/// The address bus's part of `resolved`.
pub open spec fn bus_resolved<D: AddressMappedDevice>(
    pins: PinsModel,
    word: bool,
    devices: Seq<D>,
) -> Result<PinsModel, DeviceResult> {
    if !pins.bus_enable {
        Ok(pins)
    } else if pins.rw == ReadWrite::Read {
        match scan_read(devices, pins.address, word) {
            DeviceResult::Ok8(value) => Ok(PinsModel { data: value as u16, ..pins }),
            DeviceResult::Ok16(value) => Ok(PinsModel { data: value, ..pins }),
            answer => Err(answer),
        }
    } else {
        match scan_write(devices, pins.address, pins.data, word) {
            DeviceResult::Done => Ok(pins),
            answer => Err(answer),
        }
    }
}

/// The input/output bus's part of `resolved`.
pub open spec fn io_resolved<P: IOMappedDevice>(pins: PinsModel, io_devices: Seq<P>) -> Result<
    PinsModel,
    DeviceResult,
> {
    if !pins.io_enable {
        Ok(pins)
    } else if pins.io_rw == ReadWrite::Read {
        match scan_io_read(io_devices, pins.io_address) {
            DeviceResult::Ok8(value) => Ok(PinsModel { io_data: value, ..pins }),
            answer => Err(answer),
        }
    } else {
        match scan_io_write(io_devices, pins.io_address, pins.io_data) {
            DeviceResult::Done => Ok(pins),
            answer => Err(answer),
        }
    }
}

impl<D: AddressMappedDevice, P: IOMappedDevice> CPU<D, P> {
    /// Puts `device` on the address bus, behind those that are there.
    pub fn add_device(&mut self, device: D)
        ensures
            final(self).devices() == old(self).devices().push(device),
            final(self)@ == old(self)@,
            final(self).io_devices() == old(self).io_devices(),
            final(self).options() == old(self).options(),
            final(self).table() == old(self).table(),
    {
        self.devices.push(device);
    }

    /// Puts `device` on the input/output bus, behind those that are there.
    pub fn add_io_device(&mut self, device: P)
        ensures
            final(self).io_devices() == old(self).io_devices().push(device),
            final(self)@ == old(self)@,
            final(self).devices() == old(self).devices(),
            final(self).options() == old(self).options(),
            final(self).table() == old(self).table(),
    {
        self.io_devices.push(device);
    }

    /// Reads at `address` from the first device that owns it, a word where
    /// the engine's transaction is word-wide.
    pub fn read(&mut self, address: ExtendedAddress) -> (res: DeviceResult)
        ensures
            res == scan_read(old(self).devices(), address@, old(self)@.word),
            final(self)@ == old(self)@,
            final(self).devices().len() == old(self).devices().len(),
            forall|j: int|
                0 <= j < old(self).devices().len() && j != read_claimant(
                    old(self).devices(),
                    address@,
                    old(self)@.word,
                ) ==> final(self).devices()[j] == old(self).devices()[j],
            read_claimant(old(self).devices(), address@, old(self)@.word) < old(
                self,
            ).devices().len() ==> old(self).devices()[read_claimant(
                old(self).devices(),
                address@,
                old(self)@.word,
            )].read_leaves(
                &final(self).devices()[read_claimant(
                    old(self).devices(),
                    address@,
                    old(self)@.word,
                )],
                address@,
                old(self)@.word,
            ),
            final(self).io_devices() == old(self).io_devices(),
            final(self).options() == old(self).options(),
            final(self).table() == old(self).table(),
    {
        read_devices(&mut self.devices, address, self.word)
    }

    /// Writes `data` at `address` to the first device that owns it, as a word
    /// where the engine's transaction is word-wide.
    pub fn write(&mut self, address: ExtendedAddress, data: u16) -> (res: DeviceResult)
        ensures
            res == scan_write(old(self).devices(), address@, data, old(self)@.word),
            final(self)@ == old(self)@,
            final(self).devices().len() == old(self).devices().len(),
            forall|j: int|
                0 <= j < old(self).devices().len() && j != write_claimant(
                    old(self).devices(),
                    address@,
                    data,
                    old(self)@.word,
                ) ==> final(self).devices()[j] == old(self).devices()[j],
            write_claimant(old(self).devices(), address@, data, old(self)@.word) < old(
                self,
            ).devices().len() ==> old(self).devices()[write_claimant(
                old(self).devices(),
                address@,
                data,
                old(self)@.word,
            )].write_leaves(
                &final(self).devices()[write_claimant(
                    old(self).devices(),
                    address@,
                    data,
                    old(self)@.word,
                )],
                address@,
                data,
                old(self)@.word,
            ),
            final(self).io_devices() == old(self).io_devices(),
            final(self).options() == old(self).options(),
            final(self).table() == old(self).table(),
    {
        write_devices(&mut self.devices, address, data, self.word)
    }

    /// Reads from the first device at the port `address`.
    pub fn read_io(&mut self, address: u8) -> (res: DeviceResult)
        ensures
            res == scan_io_read(old(self).io_devices(), address),
            final(self)@ == old(self)@,
            final(self).io_devices().len() == old(self).io_devices().len(),
            forall|j: int|
                0 <= j < old(self).io_devices().len() && j != port_owner(
                    old(self).io_devices(),
                    address,
                ) ==> final(self).io_devices()[j] == old(self).io_devices()[j],
            port_owner(old(self).io_devices(), address) < old(self).io_devices().len() ==> old(
                self,
            ).io_devices()[port_owner(old(self).io_devices(), address)].io_read_leaves(
                &final(self).io_devices()[port_owner(old(self).io_devices(), address)],
            ),
            final(self).devices() == old(self).devices(),
            final(self).options() == old(self).options(),
            final(self).table() == old(self).table(),
    {
        read_io_devices(&mut self.io_devices, address)
    }

    /// Writes `data` to the first device at the port `address`.
    pub fn write_io(&mut self, address: u8, data: u8) -> (res: DeviceResult)
        ensures
            res == scan_io_write(old(self).io_devices(), address, data),
            final(self)@ == old(self)@,
            final(self).io_devices().len() == old(self).io_devices().len(),
            forall|j: int|
                0 <= j < old(self).io_devices().len() && j != port_owner(
                    old(self).io_devices(),
                    address,
                ) ==> final(self).io_devices()[j] == old(self).io_devices()[j],
            port_owner(old(self).io_devices(), address) < old(self).io_devices().len() ==> old(
                self,
            ).io_devices()[port_owner(old(self).io_devices(), address)].io_write_leaves(
                &final(self).io_devices()[port_owner(old(self).io_devices(), address)],
                data,
            ),
            final(self).devices() == old(self).devices(),
            final(self).options() == old(self).options(),
            final(self).table() == old(self).table(),
    {
        write_io_devices(&mut self.io_devices, address, data)
    }

    /// Does what the pins ask of the buses after a cycle: hands the engine the
    /// data of a read, and the devices the data of a write. Where a device
    /// does not serve, its answer comes back, and the pins stay as they are.
    pub fn resolve(&mut self, pins: &mut Pins) -> (res: Result<(), DeviceResult>)
        ensures
            match resolved(old(pins)@, old(self)@.word, old(self).devices(), old(self).io_devices()) {
                Ok(p) => res == Ok::<(), DeviceResult>(()) && final(pins)@ == p,
                Err(answer) => res == Err::<(), DeviceResult>(answer) && final(pins)@ == old(
                    pins,
                )@,
            },
            final(self)@ == old(self)@,
            final(self).devices().len() == old(self).devices().len(),
            final(self).io_devices().len() == old(self).io_devices().len(),
            devices_served(
                old(pins)@,
                old(self)@.word,
                old(self).devices(),
                final(self).devices(),
            ),
            io_devices_served(
                bus_resolved(old(pins)@, old(self)@.word, old(self).devices()),
                old(self).io_devices(),
                final(self).io_devices(),
            ),
            final(self).options() == old(self).options(),
            final(self).table() == old(self).table(),
    {
        let mut data = pins.data;
        if pins.bus_enable {
            if pins.rw == ReadWrite::Read {
                match self.read(pins.address) {
                    DeviceResult::Ok8(value) => {
                        data = value as u16;
                    },
                    DeviceResult::Ok16(value) => {
                        data = value;
                    },
                    answer => {
                        return Err(answer);
                    },
                }
            } else {
                match self.write(pins.address, pins.data) {
                    DeviceResult::Done => {},
                    answer => {
                        return Err(answer);
                    },
                }
            }
        }
        if pins.io_enable {
            if pins.io_rw == ReadWrite::Read {
                match self.read_io(pins.io_address) {
                    DeviceResult::Ok8(value) => {
                        pins.io_data = value;
                    },
                    answer => {
                        return Err(answer);
                    },
                }
            } else {
                match self.write_io(pins.io_address, pins.io_data) {
                    DeviceResult::Done => {},
                    answer => {
                        return Err(answer);
                    },
                }
            }
        }
        pins.data = data;
        Ok(())
    }
}

} // verus!
