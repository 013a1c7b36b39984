//! The engine as a mathematical machine: its state as plain values, and one
//! function for each step that the executable engine takes.

use vstd::prelude::*;
use crate::address::{wrap_address, bank_of, segment_of, bank_address};
use crate::bits::{join_bytes, high_byte, low_byte};
use crate::flags::{Flag, has_flag, with_flag, lemma_with_flag};
use crate::metadata::{meta_reg0, meta_reg1, meta_reg_offset, meta_displacement};
use crate::pins::{PinsModel, ReadWrite};

verus! {

/// What the engine does in a cycle.
#[derive(Debug, Clone, Copy, PartialEq, Eq, Structural)]
pub enum CPUState {
    /// Loads the program counter from the reset vector.
    Reset,
    /// Reads the next instruction.
    Fetch,
    /// Runs the instruction that was read.
    Execute,
    /// Stands still.
    Halt,
    /// Enters an interrupt routine.
    Interrupt,
}

/// The interrupt that waits to be served.
#[derive(Debug, Clone, Copy, PartialEq, Eq, Structural)]
pub enum InterruptStatus {
    /// None waits.
    Idle,
    /// A maskable interrupt.
    Normal,
    /// A non-maskable interrupt.
    NonMaskable,
}

/// One of the four general registers.
#[derive(Debug, Clone, Copy, PartialEq, Eq, Structural)]
pub enum RegisterName {
    A,
    B,
    C,
    D,
}

/// What a register selector names: a whole register or one of its halves.
#[derive(Debug, Clone, Copy, PartialEq, Eq, Structural)]
pub enum RegisterReturn {
    Full(RegisterName),
    High(RegisterName),
    Low(RegisterName),
}

/// What follows once an absolute address has been put together.
#[derive(Debug, Clone, Copy, PartialEq, Eq, Structural)]
pub enum Continuation {
    /// Read the operand at the address.
    Data,
    /// Go on at the address.
    Jump,
    /// Write the first register to the address.
    Store,
    /// Begin a call: push the low byte of the status word.
    Call,
}

/// Why the engine cannot go on.
#[derive(Debug, Clone, Copy, PartialEq, Eq, Structural)]
pub enum Fault {
    /// The opcode table has no entry for the opcode.
    UnknownOpcode,
    /// The entry of the opcode does not have the form `name|mode`.
    MalformedEntry,
    /// The entry of the opcode names no instruction of the engine.
    UnknownMnemonic,
    /// The entry of the opcode names no addressing mode.
    UnknownMode,
    /// The instruction does not have the addressing mode.
    BadMode,
    /// The instruction, or the state, has no such cycle.
    BadCycle,
    /// The engine is to enter an interrupt, and none waits.
    NoInterrupt,
}

/// What a cycle tells the caller.
#[derive(Debug, Clone, Copy, PartialEq, Eq, Structural)]
pub enum Status {
    /// The engine goes on.
    Running,
    /// The engine has halted and was made to say so: the caller may stop.
    Exit,
}

/// The state of the engine.
pub struct Machine {
    pub ra: u16,
    pub rb: u16,
    pub rc: u16,
    pub rd: u16,
    /// The status word.
    pub flags: u16,
    /// The program counter.
    pub pc: int,
    /// The stack pointer: an offset in the bank `sp_page`.
    pub sp: u16,
    pub sp_page: u8,
    /// The opcode and the metadata word of the instruction last fetched.
    pub opcode: u8,
    pub metadata: u16,
    pub state: CPUState,
    pub int_status: InterruptStatus,
    pub int_num: u8,
    /// The cycle of the present state or instruction, counted from one.
    pub cycle: u8,
    /// The scratch address, in which an address is put together over
    /// several cycles.
    pub temp_addr: int,
    /// Whether the transaction on the bus moves a word.
    pub word: bool,
}

/// A step's outcome: the state and the pins after it, or the fault that
/// stopped it.
pub type Step = Result<(Machine, PinsModel), Fault>;

/// The address of the reset vector: a bank byte at this address and a segment
/// word behind it.
pub const RESET_VECTOR: u16 = 0x0000;

/// The address of the vector of the non-maskable interrupt.
pub const NMI_VECTOR: u16 = 0x0003;

/// The slot in the vector table that belongs to the vector number in the low
/// four bits of `number`: three bytes for each number.
pub open spec fn vector_slot(number: u8) -> int {
    (number % 16) * 3
}

/// The register, whole or half, that the low four bits of `selector` name.
/// Selectors 0 to 3 and 4 to 7 name the four whole registers; 8 to 15 name
/// their halves, the upper half first.
pub open spec fn decode_selector(selector: u8) -> RegisterReturn {
    let s = selector % 16;
    if s < 8 {
        RegisterReturn::Full(register_at((s % 4) as int))
    } else if s % 2 == 0 {
        RegisterReturn::High(register_at((s - 8) / 2))
    } else {
        RegisterReturn::Low(register_at((s - 8) / 2))
    }
}

/// A selector with its top bit set names half a register: which of the four
/// registers, and which half, follows from its low three bits alone. A
/// selector with its top bit clear names a whole register, and the selectors
/// 0 to 3 name the same four registers as 4 to 7. Bits above the fourth play
/// no part.
pub proof fn lemma_selectors(selector: u8)
    ensures
        decode_selector(selector) == decode_selector(selector % 16),
        selector % 16 >= 8 ==> decode_selector(selector) == (if selector % 2 == 0 {
            RegisterReturn::High(register_at(((selector % 8) / 2) as int))
        } else {
            RegisterReturn::Low(register_at(((selector % 8) / 2) as int))
        }),
        selector % 16 < 8 ==> decode_selector(selector) == RegisterReturn::Full(
            register_at((selector % 4) as int),
        ),
        selector < 4 ==> decode_selector(selector) == decode_selector((selector + 4) as u8),
        register_at(0) != register_at(1) && register_at(0) != register_at(2) && register_at(0)
            != register_at(3) && register_at(1) != register_at(2) && register_at(1) != register_at(3)
            && register_at(2) != register_at(3),
{
}

/// The register with number `index`.
pub open spec fn register_at(index: int) -> RegisterName {
    if index == 0 {
        RegisterName::A
    } else if index == 1 {
        RegisterName::B
    } else if index == 2 {
        RegisterName::C
    } else {
        RegisterName::D
    }
}

/// A word taken as a signed number.
pub open spec fn signed_word(value: u16) -> int {
    if value >= 0x8000 {
        value as int - 0x1_0000
    } else {
        value as int
    }
}

/// Whether the sign bit of a byte or of a word is set.
pub open spec fn is_negative(value: u16, byte: bool) -> bool {
    if byte {
        value % 256 >= 128
    } else {
        value >= 0x8000
    }
}

/// The status word after Zero and Negative were decided by `value`: Zero is
/// set where the value is zero and cleared where it is not, Negative is set
/// where its sign bit is set and cleared where it is not.
pub open spec fn decide_zn(flags: u16, value: u16, byte: bool) -> u16 {
    with_flag(with_flag(flags, Flag::Z, value == 0), Flag::N, is_negative(value, byte))
}

/// The carry flag as a number.
pub open spec fn carry_in(flags: u16) -> int {
    if has_flag(flags, Flag::C) {
        1
    } else {
        0
    }
}

/// The status word and the result of an addition with carry: `a + addend`
/// and the carry flag, cut to the width. Carry is decided by the sum,
/// Overflow by the bits in which the sum differs from the complement of
/// `a ^ shown`; Zero and Negative are decided by the result.
pub open spec fn alu_sum(flags: u16, a: u16, addend: int, shown: u16, byte: bool) -> (u16, u16) {
    let total = a as int + addend + carry_in(flags);
    let temp = (total % 0x1_0000) as u16;
    let carry = if byte {
        temp > 0xFF
    } else {
        total > 0xFFFF
    };
    let result = if byte {
        (temp % 256) as u16
    } else {
        temp
    };
    let with_carry = with_flag(flags, Flag::C, carry);
    let with_overflow = with_flag(with_carry, Flag::O, (!(a ^ shown) ^ temp) != 0);
    (decide_zn(with_overflow, result, byte), result)
}

/// The status word after a comparison of `a` with `b`: Zero, Negative,
/// Greater and Less are each set or cleared.
pub open spec fn compare_flags(flags: u16, a: u16, b: u16, byte: bool) -> u16 {
    let difference = if byte {
        (((a as int - b as int) % 256) as u16)
    } else {
        (((a as int - b as int) % 0x1_0000) as u16)
    };
    let z = with_flag(flags, Flag::Z, a == b);
    let n = with_flag(z, Flag::N, is_negative(difference, byte));
    let g = with_flag(n, Flag::G, a > b);
    with_flag(g, Flag::L, a < b)
}

/// A comparison decides Zero, Greater and Less by the two values alone: Zero
/// where they are equal, Greater where the first is greater, Less where it is
/// less. Carry, Overflow and Interrupt disable stay as they were.
pub proof fn lemma_compare_flags(flags: u16, a: u16, b: u16, byte: bool, flag: Flag)
    ensures
        has_flag(compare_flags(flags, a, b, byte), Flag::Z) == (a == b),
        has_flag(compare_flags(flags, a, b, byte), Flag::G) == (a > b),
        has_flag(compare_flags(flags, a, b, byte), Flag::L) == (a < b),
        flag == Flag::C || flag == Flag::O || flag == Flag::I ==> has_flag(
            compare_flags(flags, a, b, byte),
            flag,
        ) == has_flag(flags, flag),
{
    let difference = if byte {
        (((a as int - b as int) % 256) as u16)
    } else {
        (((a as int - b as int) % 0x1_0000) as u16)
    };
    let z = with_flag(flags, Flag::Z, a == b);
    let n = with_flag(z, Flag::N, is_negative(difference, byte));
    let g = with_flag(n, Flag::G, a > b);
    lemma_with_flag(flags, Flag::Z, a == b, Flag::Z);
    lemma_with_flag(flags, Flag::Z, a == b, flag);
    lemma_with_flag(z, Flag::N, is_negative(difference, byte), Flag::Z);
    lemma_with_flag(z, Flag::N, is_negative(difference, byte), flag);
    lemma_with_flag(n, Flag::G, a > b, Flag::Z);
    lemma_with_flag(n, Flag::G, a > b, Flag::G);
    lemma_with_flag(n, Flag::G, a > b, flag);
    lemma_with_flag(g, Flag::L, a < b, Flag::Z);
    lemma_with_flag(g, Flag::L, a < b, Flag::G);
    lemma_with_flag(g, Flag::L, a < b, Flag::L);
    lemma_with_flag(g, Flag::L, a < b, flag);
}

impl PinsModel {
    /// The pins that ask for a read at `address`.
    pub open spec fn read_at(self, address: int) -> PinsModel {
        PinsModel { address, rw: ReadWrite::Read, ..self }
    }

    /// The pins that ask for `data` to be written at `address`.
    pub open spec fn write_at(self, address: int, data: u16) -> PinsModel {
        PinsModel { address, data, rw: ReadWrite::Write, ..self }
    }

    /// The pins that ask for the data they hold to be written at `address`.
    pub open spec fn write_back_at(self, address: int) -> PinsModel {
        PinsModel { address, rw: ReadWrite::Write, ..self }
    }
}

impl Machine {
    /// The word in a register.
    pub open spec fn register(self, name: RegisterName) -> u16 {
        match name {
            RegisterName::A => self.ra,
            RegisterName::B => self.rb,
            RegisterName::C => self.rc,
            RegisterName::D => self.rd,
        }
    }

    /// The machine with `word` in a register.
    pub open spec fn with_register(self, name: RegisterName, word: u16) -> Machine {
        match name {
            RegisterName::A => Machine { ra: word, ..self },
            RegisterName::B => Machine { rb: word, ..self },
            RegisterName::C => Machine { rc: word, ..self },
            RegisterName::D => Machine { rd: word, ..self },
        }
    }

    /// What a whole register or a half holds; a half is read as a word with a
    /// zero upper byte.
    pub open spec fn value_of(self, target: RegisterReturn) -> u16 {
        match target {
            RegisterReturn::Full(name) => self.register(name),
            RegisterReturn::High(name) => high_byte(self.register(name)) as u16,
            RegisterReturn::Low(name) => low_byte(self.register(name)) as u16,
        }
    }

    /// The machine after `data` was put into a whole register, or its low
    /// byte into a half; the other half stays.
    pub open spec fn with_value(self, target: RegisterReturn, data: u16) -> Machine {
        match target {
            RegisterReturn::Full(name) => self.with_register(name, data),
            RegisterReturn::High(name) => self.with_register(
                name,
                join_bytes(low_byte(data), low_byte(self.register(name))),
            ),
            RegisterReturn::Low(name) => self.with_register(
                name,
                join_bytes(high_byte(self.register(name)), low_byte(data)),
            ),
        }
    }

    /// What the register named by `selector` holds.
    pub open spec fn read(self, selector: u8) -> u16 {
        self.value_of(decode_selector(selector))
    }

    /// The machine after `data` was put into the register named by `selector`.
    pub open spec fn write(self, selector: u8, data: u16) -> Machine {
        self.with_value(decode_selector(selector), data)
    }

    /// The first register selector of the instruction.
    pub open spec fn reg0(self) -> u8 {
        meta_reg0(self.metadata)
    }

    /// The second register selector of the instruction.
    pub open spec fn reg1(self) -> u8 {
        meta_reg1(self.metadata)
    }

    /// The bus address that the stack pointer names.
    pub open spec fn sp_address(self) -> int {
        bank_address(self.sp_page as int, self.sp as int)
    }

    /// The machine with the stack pointer moved by `amount` inside its bank.
    pub open spec fn move_sp(self, amount: int) -> Machine {
        Machine { sp: ((self.sp + amount) % 0x1_0000) as u16, ..self }
    }

    /// The machine with the program counter moved up by `amount`.
    pub open spec fn advance(self, amount: int) -> Machine {
        Machine { pc: wrap_address(self.pc + amount), ..self }
    }

    /// The end of an instruction or of a state's work: the cycle count starts
    /// over, the bus is released, and the engine goes on to the interrupt that
    /// waits, stays halted, or fetches.
    pub open spec fn finish(self, pins: PinsModel) -> (Machine, PinsModel) {
        let state = if self.int_status != InterruptStatus::Idle {
            CPUState::Interrupt
        } else if self.state == CPUState::Halt {
            CPUState::Halt
        } else {
            CPUState::Fetch
        };
        (Machine { cycle: 0, state, ..self }, PinsModel { bus_enable: false, ..pins })
    }

    /// The address that an absolute operand names, from the bank in the
    /// scratch address and the segment word on the bus: moved by the second
    /// register, taken as a signed word, where the instruction asks for an
    /// index, and by the displacement of the instruction otherwise.
    pub open spec fn effective_address(self, segment: u16) -> int {
        let base = bank_address(bank_of(self.temp_addr), segment as int);
        if meta_reg_offset(self.metadata) > 0 {
            wrap_address(base + signed_word(self.read(self.reg1())))
        } else {
            wrap_address(base + meta_displacement(self.metadata))
        }
    }

    /// What follows the address: the third cycle of an absolute operand, once
    /// the scratch address is complete.
    pub open spec fn continue_with(self, pins: PinsModel, then: Option<Continuation>) -> (
        Machine,
        PinsModel,
    ) {
        match then {
            None => (self, pins),
            Some(Continuation::Data) => (self, pins.read_at(self.temp_addr)),
            Some(Continuation::Jump) => (Machine { pc: self.temp_addr, ..self }).finish(pins),
            Some(Continuation::Store) => (
                self,
                pins.write_at(self.temp_addr, self.read(self.reg0())),
            ),
            Some(Continuation::Call) => (self, pins.write_at(self.sp_address(), self.flags)),
        }
    }

    /// The three cycles in which every instruction with an absolute operand
    /// puts the address together: ask for the bank byte; take it and ask for
    /// the segment word; take that, apply the offset, and go on as `then`
    /// says, with the bus width that `byte` asks for.
    pub open spec fn mode_absolute(self, pins: PinsModel, byte: bool, then: Option<Continuation>)
        -> Step {
        if self.cycle == 1 {
            Ok((Machine { word: false, ..self }, pins.read_at(self.pc)))
        } else if self.cycle == 2 {
            let next = Machine {
                temp_addr: bank_address(low_byte(pins.data) as int, segment_of(self.temp_addr)),
                word: true,
                ..self.advance(1)
            };
            Ok((next, pins.read_at(next.pc)))
        } else if self.cycle == 3 {
            let ready = Machine {
                temp_addr: self.effective_address(pins.data),
                ..self.advance(2)
            };
            let (m, p) = ready.continue_with(pins, then);
            Ok((Machine { word: !byte, ..m }, p))
        } else {
            Err(Fault::BadCycle)
        }
    }

    /// The cycle in which an instruction asks for its immediate operand.
    pub open spec fn mode_immediate(self, pins: PinsModel, byte: bool) -> (Machine, PinsModel) {
        (Machine { word: !byte, ..self }, pins.read_at(self.pc))
    }

    /// The machine as it is switched on: everything zero, the stack in bank
    /// zero, about to load the reset vector.
    pub open spec fn power_on() -> Machine {
        Machine {
            ra: 0,
            rb: 0,
            rc: 0,
            rd: 0,
            flags: 0,
            pc: 0,
            sp: 0,
            sp_page: 0,
            opcode: 0,
            metadata: 0,
            state: CPUState::Reset,
            int_status: InterruptStatus::Idle,
            int_num: 0,
            cycle: 1,
            temp_addr: 0,
            word: false,
        }
    }

    /// The machine after a reset: registers, flags and program counter are
    /// zero, the stack is empty in bank one, and the reset vector is loaded
    /// next. The rest stays.
    pub open spec fn reset(self) -> Machine {
        Machine {
            ra: 0,
            rb: 0,
            rc: 0,
            rd: 0,
            flags: 0,
            pc: 0,
            sp: 0,
            sp_page: 1,
            state: CPUState::Reset,
            cycle: 1,
            ..self
        }
    }

    /// One cycle of the reset: ask for the bank byte of the reset vector;
    /// take it and ask for the segment word; take that, and go on at the
    /// address that the vector holds.
    pub open spec fn reset_step(self, pins: PinsModel) -> Step {
        if self.cycle == 1 {
            Ok((Machine { word: false, ..self }, pins.read_at(RESET_VECTOR as int)))
        } else if self.cycle == 2 {
            Ok(
                (
                    Machine {
                        temp_addr: bank_address(
                            low_byte(pins.data) as int,
                            segment_of(self.temp_addr),
                        ),
                        word: true,
                        ..self
                    },
                    pins.read_at(RESET_VECTOR + 1),
                ),
            )
        } else if self.cycle == 3 {
            let target = bank_address(bank_of(self.temp_addr), pins.data as int);
            Ok((Machine { temp_addr: target, pc: target, ..self }).finish(pins))
        } else {
            Err(Fault::BadCycle)
        }
    }

    /// One cycle of a fetch: ask for the opcode byte; take it and ask for the
    /// metadata word; take that and execute. The program counter then stands
    /// behind the three bytes.
    pub open spec fn fetch_step(self, pins: PinsModel) -> Step {
        if self.cycle == 1 {
            Ok(
                (
                    Machine { word: false, ..self },
                    PinsModel { bus_enable: true, ..pins.read_at(self.pc) },
                ),
            )
        } else if self.cycle == 2 {
            let m = Machine { opcode: low_byte(pins.data), word: true, ..self.advance(1) };
            Ok((m, pins.read_at(m.pc)))
        } else if self.cycle == 3 {
            let (m, p) = (Machine { metadata: pins.data, ..self.advance(2) }).finish(pins);
            Ok((Machine { state: CPUState::Execute, ..m }, p))
        } else {
            Err(Fault::BadCycle)
        }
    }

    /// One cycle of the entry into an interrupt routine, byte by byte:
    /// acknowledge; ask for the bank byte of the vector, in the slot of the
    /// requester's number or, for a non-maskable interrupt, in the fixed slot;
    /// take the bank, the high and the low byte of the routine's address;
    /// push the status byte and the bank, the high and the low byte of the
    /// program counter; go on at the routine. A maskable interrupt is served
    /// with that; a non-maskable one stays latched.
    pub open spec fn interrupt_step(self, pins: PinsModel) -> Step {
        let m = Machine { word: false, ..self };
        if self.int_status == InterruptStatus::Idle {
            Err(Fault::NoInterrupt)
        } else if self.cycle == 1 {
            Ok((m, PinsModel { irq: crate::pins::IRQ { ack: true, ..pins.irq }, ..pins }))
        } else if self.cycle == 2 {
            let released = PinsModel {
                bus_enable: true,
                irq: crate::pins::IRQ { ack: false, ..pins.irq },
                ..pins
            };
            if self.int_status == InterruptStatus::Normal {
                Ok(
                    (
                        Machine { int_num: pins.irq.data, ..m },
                        released.read_at(vector_slot(pins.irq.data)),
                    ),
                )
            } else {
                Ok((m, released.read_at(NMI_VECTOR as int)))
            }
        } else if self.cycle == 3 {
            Ok(
                (
                    Machine {
                        temp_addr: bank_address(
                            low_byte(pins.data) as int,
                            segment_of(self.temp_addr),
                        ),
                        ..m
                    },
                    pins.read_at(wrap_address(pins.address + 1)),
                ),
            )
        } else if self.cycle == 4 {
            Ok(
                (
                    Machine {
                        temp_addr: bank_address(
                            bank_of(self.temp_addr),
                            low_byte(pins.data) as int * 256 + self.temp_addr % 256,
                        ),
                        ..m
                    },
                    pins.read_at(wrap_address(pins.address + 1)),
                ),
            )
        } else if self.cycle == 5 {
            Ok(
                (
                    Machine { temp_addr: (self.temp_addr / 256) * 256 + low_byte(pins.data), ..m },
                    pins.write_at(self.sp_address(), self.flags),
                ),
            )
        } else if self.cycle == 6 {
            let up = m.move_sp(1);
            Ok((up, pins.write_at(up.sp_address(), bank_of(self.pc) as u16)))
        } else if self.cycle == 7 {
            let up = m.move_sp(1);
            Ok((up, pins.write_at(up.sp_address(), ((self.pc / 256) % 256) as u16)))
        } else if self.cycle == 8 {
            let up = m.move_sp(1);
            Ok((up, pins.write_at(up.sp_address(), (self.pc % 256) as u16)))
        } else if self.cycle == 9 {
            let up = m.move_sp(1);
            Ok(
                (Machine {
                    pc: self.temp_addr,
                    int_status: if self.int_status == InterruptStatus::Normal {
                        InterruptStatus::Idle
                    } else {
                        self.int_status
                    },
                    ..up
                }).finish(pins),
            )
        } else {
            Err(Fault::BadCycle)
        }
    }

    /// The machine after the interrupt lines were sampled: a request is
    /// latched where none waits, a maskable one before a non-maskable one.
    pub open spec fn latch(self, pins: PinsModel) -> Machine {
        if self.int_status != InterruptStatus::Idle {
            self
        } else if pins.irq.req {
            Machine { int_status: InterruptStatus::Normal, ..self }
        } else if pins.irq.nmi {
            Machine { int_status: InterruptStatus::NonMaskable, ..self }
        } else {
            self
        }
    }

    /// The machine with the cycle count one up. The count stops at its
    /// largest value.
    pub open spec fn tick(self) -> Machine {
        Machine {
            cycle: if self.cycle < 255 {
                (self.cycle + 1) as u8
            } else {
                self.cycle
            },
            ..self
        }
    }

    /// A conditional jump once the address is complete: to the address where
    /// the flag is as wanted, one byte on where it is not.
    pub open spec fn jump_cond(self, pins: PinsModel, flag: Flag, wanted: bool) -> (
        Machine,
        PinsModel,
    ) {
        let target = if has_flag(self.flags, flag) == wanted {
            self.temp_addr
        } else {
            wrap_address(self.pc + 1)
        };
        (Machine { pc: target, word: false, ..self }).finish(pins)
    }
}

} // verus!
