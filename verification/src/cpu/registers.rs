//! The register file as the instructions reach it: through selectors that
//! name a whole register or one of its halves.

use vstd::prelude::*;
use crate::bits::low;
use crate::cpu::{CPU, Flag, Machine, Register, RegisterName, RegisterReturn};
use crate::cpu::model::{decode_selector, is_negative, decide_zn};
use crate::device::{AddressMappedDevice, IOMappedDevice};
use crate::flags::with_flag;

verus! {

impl<D: AddressMappedDevice, P: IOMappedDevice> CPU<D, P> {
    /// What the selector `reg` names.
    pub fn decode_register(&self, reg: u8) -> (target: RegisterReturn)
        ensures
            target == decode_selector(reg),
    {
        let s = reg % 16;
        let name = match (if s < 8 {
            s % 4
        } else {
            (s - 8) / 2
        }) {
            0 => RegisterName::A,
            1 => RegisterName::B,
            2 => RegisterName::C,
            _ => RegisterName::D,
        };
        if s < 8 {
            RegisterReturn::Full(name)
        } else if s % 2 == 0 {
            RegisterReturn::High(name)
        } else {
            RegisterReturn::Low(name)
        }
    }

    /// The register `name`.
    pub(crate) fn register_ref(&self, name: RegisterName) -> (r: &Register)
        ensures
            r@ == self@.register(name),
    {
        match name {
            RegisterName::A => &self.ra,
            RegisterName::B => &self.rb,
            RegisterName::C => &self.rc,
            RegisterName::D => &self.rd,
        }
    }

    /// Replaces the register `name`.
    fn put_register(&mut self, name: RegisterName, register: Register)
        ensures
            final(self)@ == old(self)@.with_register(name, register@),
            final(self).same_wiring(old(self)),
    {
        match name {
            RegisterName::A => {
                self.ra = register;
            },
            RegisterName::B => {
                self.rb = register;
            },
            RegisterName::C => {
                self.rc = register;
            },
            RegisterName::D => {
                self.rd = register;
            },
        }
    }

    /// What a whole register or a half holds.
    pub fn get_register(&self, target: RegisterReturn) -> (value: u16)
        ensures
            value == self@.value_of(target),
    {
        match target {
            RegisterReturn::Full(name) => self.register_ref(name).get_word(),
            RegisterReturn::High(name) => self.register_ref(name).get_high() as u16,
            RegisterReturn::Low(name) => self.register_ref(name).get_low() as u16,
        }
    }

    /// Puts `data` into a whole register, or its low byte into a half.
    pub fn set_register(&mut self, target: RegisterReturn, data: u16)
        ensures
            final(self)@ == old(self)@.with_value(target, data),
            final(self).same_wiring(old(self)),
    {
        match target {
            RegisterReturn::Full(name) => {
                let mut register = *self.register_ref(name);
                register.set_word(data);
                self.put_register(name, register);
            },
            RegisterReturn::High(name) => {
                let mut register = *self.register_ref(name);
                register.set_high(low(data));
                self.put_register(name, register);
            },
            RegisterReturn::Low(name) => {
                let mut register = *self.register_ref(name);
                register.set_low(low(data));
                self.put_register(name, register);
            },
        }
    }

    /// What the register named by the selector `reg` holds.
    pub(crate) fn read_selected(&self, reg: u8) -> (value: u16)
        ensures
            value == self@.read(reg),
    {
        self.get_register(self.decode_register(reg))
    }

    /// Puts `data` into the register named by the selector `reg`.
    pub(crate) fn write_selected(&mut self, reg: u8, data: u16)
        ensures
            final(self)@ == old(self)@.write(reg, data),
            final(self).same_wiring(old(self)),
    {
        let target = self.decode_register(reg);
        self.set_register(target, data);
    }

    /// Decides Zero or Negative by `value`: sets the flag where it applies and
    /// clears it where it does not.
    pub(crate) fn set_flag(&mut self, flag: Flag, value: u16, value_is_byte: bool)
        requires
            flag == Flag::Z || flag == Flag::N,
        ensures
            final(self)@ == (Machine {
                flags: with_flag(
                    old(self)@.flags,
                    flag,
                    if flag == Flag::Z {
                        value == 0
                    } else {
                        is_negative(value, value_is_byte)
                    },
                ),
                ..old(self)@
            }),
            final(self).same_wiring(old(self)),
    {
        let applies = match flag {
            Flag::Z => value == 0,
            _ => if value_is_byte {
                value % 256 >= 128
            } else {
                value >= 0x8000
            },
        };
        self.flags.set(flag, applies);
    }

    /// Decides Zero and Negative by `value`.
    pub(crate) fn set_zn(&mut self, value: u16, value_is_byte: bool)
        ensures
            final(self)@ == (Machine {
                flags: decide_zn(old(self)@.flags, value, value_is_byte),
                ..old(self)@
            }),
            final(self).same_wiring(old(self)),
    {
        self.set_flag(Flag::Z, value, value_is_byte);
        self.set_flag(Flag::N, value, value_is_byte);
    }
}

} // verus!
