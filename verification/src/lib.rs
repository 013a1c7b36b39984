//! A cycle-accurate engine for a small 16-bit processor with a banked 24-bit
//! address bus. The engine does one bus transaction's worth of work each time
//! it is called; its caller serves the bus between two calls.
//!
//! Every function has a contract, stated over a mathematical machine
//! ([`cpu::Machine`]) and proved. What holds of whole instructions, from
//! their fetch to their end, is stated and proved in [`cpu::laws`].

pub mod bits;
pub mod register;
pub mod address;
pub mod flags;
pub mod metadata;
pub mod pins;
pub mod device;
pub mod cpu;
pub mod info;
