//! The bus as the engine and its caller see it between two cycles.

use vstd::prelude::*;
use crate::address::ExtendedAddress;

verus! {

/// The direction of a bus transaction.
#[derive(Debug, Clone, Copy, PartialEq, Eq, Structural)]
pub enum ReadWrite {
    /// The engine takes data.
    Read,
    /// The engine gives data.
    Write,
}

/// The interrupt lines.
#[derive(Debug, Clone, Copy, PartialEq, Eq, Structural)]
pub struct IRQ {
    /// A maskable request is pending.
    pub req: bool,
    /// A non-maskable request is pending.
    pub nmi: bool,
    /// The engine acknowledges a request.
    pub ack: bool,
    /// The vector number that the requester supplies; its low four bits count.
    pub data: u8,
}

/// The bus transaction that the engine asks for, and the data that its caller
/// hands back.
#[derive(Debug)]
pub struct Pins {
    pub address: ExtendedAddress,
    pub data: u16,
    pub rw: ReadWrite,
    pub bus_enable: bool,
    pub io_address: u8,
    pub io_data: u8,
    pub io_rw: ReadWrite,
    pub io_enable: bool,
    pub irq: IRQ,
}

/// The pins with the address as a number.
pub struct PinsModel {
    pub address: int,
    pub data: u16,
    pub rw: ReadWrite,
    pub bus_enable: bool,
    pub io_address: u8,
    pub io_data: u8,
    pub io_rw: ReadWrite,
    pub io_enable: bool,
    pub irq: IRQ,
}

impl View for Pins {
    type V = PinsModel;

    /// The pins stand for what they hold, the address as its number.
    open spec fn view(&self) -> PinsModel {
        PinsModel {
            address: self.address@,
            data: self.data,
            rw: self.rw,
            bus_enable: self.bus_enable,
            io_address: self.io_address,
            io_data: self.io_data,
            io_rw: self.io_rw,
            io_enable: self.io_enable,
            irq: self.irq,
        }
    }
}

/// Pins at rest: address zero, no data, both buses off, no interrupt.
pub open spec fn idle_pins() -> PinsModel {
    PinsModel {
        address: 0,
        data: 0,
        rw: ReadWrite::Read,
        bus_enable: false,
        io_address: 0,
        io_data: 0,
        io_rw: ReadWrite::Read,
        io_enable: false,
        irq: IRQ { req: false, nmi: false, ack: false, data: 0 },
    }
}

impl Default for IRQ {
    /// No request, no acknowledgement.
    fn default() -> (r: Self)
        ensures
            r == (IRQ { req: false, nmi: false, ack: false, data: 0 }),
    {
        IRQ { req: false, nmi: false, ack: false, data: 0 }
    }
}

impl Default for Pins {
    /// Pins at rest.
    fn default() -> (r: Self)
        ensures
            r@ == idle_pins(),
    {
        Pins {
            address: ExtendedAddress::new_16bit_address(0),
            data: 0,
            rw: ReadWrite::Read,
            bus_enable: false,
            io_address: 0,
            io_data: 0,
            io_rw: ReadWrite::Read,
            io_enable: false,
            irq: IRQ { req: false, nmi: false, ack: false, data: 0 },
        }
    }
}

} // verus!
