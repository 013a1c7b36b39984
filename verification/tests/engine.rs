use std::collections::HashMap;

use hexacore::cpu::RegisterReturn::{Full, High, Low};
use hexacore::cpu::{
    AddressingMode, CPUState, EmuOptions, ExtendedAddress, Fault, InterruptStatus, Pins,
    RegisterName, Status, CPU,
};
use hexacore::device::{AddressMappedDevice, DeviceResult, Out, RAM};
use hexacore::info::InstructionInfoFile;

const MOV_I: u8 = 59;
const MOV_R: u8 = 68;
const MOV_A: u8 = 51;
const MOVB_I: u8 = 125;
const ST_A: u8 = 232;
const ADD_I: u8 = 18;
const ADD_R: u8 = 27;
const ADDB_I: u8 = 84;
const SUB_I: u8 = 83;
const CMP_I: u8 = 41;
const CMPB_I: u8 = 107;
const XOR_I: u8 = 66;
const XORB_I: u8 = 132;
const AND_I: u8 = 28;
const DEC_R: u8 = 30;
const SBL_R: u8 = 115;
const ROL_R: u8 = 63;
const JMP_A: u8 = 72;
const JSR_A: u8 = 48;
const RTS_M: u8 = 249;
const BIZ_A: u8 = 38;
const BNZ_A: u8 = 139;
const CLC_M: u8 = 210;
const SEI_M: u8 = 225;
const CLI_M: u8 = 216;
const HLT_M: u8 = 8;
const OUT_I: u8 = 65;
const IN_I: u8 = 224;
const PSH_I: u8 = 52;
const OR_I: u8 = 234;
const SUBB_I: u8 = 149;
const SUB_R: u8 = 60;
const SBLB_R: u8 = 181;
const SBL_A: u8 = 34;
const DEC_A: u8 = 13;
const DECB_A: u8 = 79;
const CMP_A: u8 = 33;
const CMP_R: u8 = 50;
const XOR_A: u8 = 58;
const XOR_R: u8 = 75;
const ADD_A: u8 = 10;
const PSH_R: u8 = 61;
const PSHB_I: u8 = 118;
const PSHB_R: u8 = 127;
const STB_A: u8 = 42;
const MOVB_A: u8 = 117;
const BIC_A: u8 = 15;
const BNC_A: u8 = 180;
const BIL_A: u8 = 24;
const BIG_A: u8 = 19;
const CLV_M: u8 = 229;
const POP_M: u8 = 250;

const CODE: u32 = 0x0100;

fn table() -> InstructionInfoFile {
    let mut opcodes = HashMap::new();
    for (opcode, text) in [
        (MOV_I, "mov|I"),
        (MOV_R, "mov|R"),
        (MOV_A, "mov|A"),
        (MOVB_I, "movb|I"),
        (ST_A, "st|A"),
        (ADD_I, "add|I"),
        (ADD_R, "add|R"),
        (ADDB_I, "addb|I"),
        (SUB_I, "sub|I"),
        (CMP_I, "cmp|I"),
        (CMPB_I, "cmpb|I"),
        (XOR_I, "xor|I"),
        (XORB_I, "xorb|I"),
        (AND_I, "and|I"),
        (DEC_R, "dec|R"),
        (SBL_R, "sbl|R"),
        (ROL_R, "rol|R"),
        (JMP_A, "jmp|A"),
        (JSR_A, "jsr|A"),
        (RTS_M, "rts|M"),
        (BIZ_A, "biz|A"),
        (BNZ_A, "bnz|A"),
        (CLC_M, "clc|M"),
        (SEI_M, "sei|M"),
        (CLI_M, "cli|M"),
        (HLT_M, "hlt|M"),
        (OUT_I, "out|I"),
        (IN_I, "in|I"),
        (PSH_I, "psh|I"),
        (OR_I, "or|I"),
        (SUBB_I, "subb|I"),
        (SUB_R, "sub|R"),
        (SBLB_R, "sblb|R"),
        (SBL_A, "sbl|A"),
        (DEC_A, "dec|A"),
        (DECB_A, "decb|A"),
        (CMP_A, "cmp|A"),
        (CMP_R, "cmp|R"),
        (XOR_A, "xor|A"),
        (XOR_R, "xor|R"),
        (ADD_A, "add|A"),
        (PSH_R, "psh|R"),
        (PSHB_I, "pshb|I"),
        (PSHB_R, "pshb|R"),
        (STB_A, "stb|A"),
        (MOVB_A, "movb|A"),
        (BIC_A, "bic|A"),
        (BNC_A, "bnc|A"),
        (BIL_A, "bil|A"),
        (BIG_A, "big|A"),
        (CLV_M, "clv|M"),
        (POP_M, "pop|M"),
        (200, "st|I"),
        (201, "mov"),
        (202, "mov|X"),
    ] {
        opcodes.insert(opcode, String::from(text));
    }
    InstructionInfoFile { opcodes, info: vec![] }
}

/// An engine with 128 KiB of memory from address zero: the vectors and the
/// program in bank zero, the stack in bank one. The reset vector points at
/// `CODE`, where `program` is put.
fn machine(program: &[u8]) -> (CPU<RAM, Out>, Pins) {
    let mut ram = RAM::new(
        ExtendedAddress::new_ext_address(0x00_0000),
        ExtendedAddress::new_ext_address(0x01_FFFF),
    );
    ram.poke(0, 0x00);
    ram.poke(1, (CODE >> 8) as u8);
    ram.poke(2, CODE as u8);
    for (i, byte) in program.iter().enumerate() {
        assert!(ram.poke(CODE as usize + i, *byte));
    }
    let mut cpu = CPU::new(table(), None);
    cpu.add_device(ram);
    cpu.add_io_device(Out::new(0xA0));
    let mut pins = Pins::default();
    cpu.reset(&mut pins);
    (cpu, pins)
}

fn turn(cpu: &mut CPU<RAM, Out>, pins: &mut Pins) {
    assert_eq!(cpu.cycle(pins), Ok(Status::Running));
    assert_eq!(cpu.resolve(pins), Ok(()));
}

fn turns(cpu: &mut CPU<RAM, Out>, pins: &mut Pins, count: usize) {
    for _ in 0..count {
        turn(cpu, pins);
    }
}

/// The three cycles in which the reset vector is loaded.
fn boot(cpu: &mut CPU<RAM, Out>, pins: &mut Pins) {
    turns(cpu, pins, 3);
}

/// One instruction after another: the three cycles of the fetch, and as many
/// cycles of execution as `cycles` gives for each.
fn run(cpu: &mut CPU<RAM, Out>, pins: &mut Pins, cycles: &[usize]) {
    for count in cycles {
        turns(cpu, pins, 3 + count);
    }
}

fn pc(cpu: &CPU<RAM, Out>) -> u32 {
    cpu.program_counter().value()
}

fn flag(cpu: &CPU<RAM, Out>, mask: u16) -> bool {
    cpu.status_word() & mask == mask
}

const Z: u16 = 0x01;
const N: u16 = 0x02;
const C: u16 = 0x04;
const O: u16 = 0x08;
const L: u16 = 0x10;
const G: u16 = 0x20;
const I: u16 = 0x40;

#[test]
fn new_engine_is_switched_on() {
    let cpu: CPU<RAM, Out> = CPU::new(table(), Some(EmuOptions::new_value(1)));
    assert_eq!(cpu.state(), CPUState::Reset);
    assert_eq!(cpu.cycle_count(), 1);
    assert_eq!(pc(&cpu), 0);
    assert_eq!(cpu.status_word(), 0);
    assert_eq!(cpu.stack_pointer().get_value(), 0);
    assert_eq!(cpu.stack_pointer().get_page(), 0);
    assert_eq!(cpu.interrupt_status(), InterruptStatus::Idle);
}

#[test]
fn reset_loads_the_vector() {
    let (mut cpu, mut pins) = machine(&[]);
    assert_eq!(cpu.state(), CPUState::Reset);
    assert!(pins.bus_enable);
    assert_eq!(cpu.stack_pointer().get_page(), 1);
    turns(&mut cpu, &mut pins, 3);
    assert_eq!(pc(&cpu), 0x00_0100);
    assert_eq!(cpu.state(), CPUState::Fetch);
    assert_eq!(cpu.cycle_count(), 1);
    assert_eq!(cpu.register_word(RegisterName::A), 0);
    assert_eq!(cpu.register_word(RegisterName::B), 0);
    assert_eq!(cpu.register_word(RegisterName::C), 0);
    assert_eq!(cpu.register_word(RegisterName::D), 0);
    assert_eq!(cpu.status_word(), 0);
}

#[test]
fn reset_forgets_registers_and_flags() {
    let (mut cpu, mut pins) = machine(&[MOV_I, 0x00, 0x02, 0x80, 0x01]);
    boot(&mut cpu, &mut pins);
    run(&mut cpu, &mut pins, &[2]);
    assert_eq!(cpu.register_word(RegisterName::C), 0x8001);
    assert!(flag(&cpu, N));
    cpu.reset(&mut pins);
    assert_eq!(cpu.register_word(RegisterName::C), 0);
    assert_eq!(cpu.status_word(), 0);
    assert_eq!(pc(&cpu), 0);
    turns(&mut cpu, &mut pins, 3);
    assert_eq!(pc(&cpu), 0x00_0100);
}

#[test]
fn reset_vector_in_another_bank() {
    let mut ram = RAM::new(
        ExtendedAddress::new_ext_address(0),
        ExtendedAddress::new_ext_address(0xFF),
    );
    ram.poke(0, 0x12);
    ram.poke(1, 0x34);
    ram.poke(2, 0x56);
    let mut cpu: CPU<RAM, Out> = CPU::new(table(), None);
    cpu.add_device(ram);
    let mut pins = Pins::default();
    cpu.reset(&mut pins);
    turns(&mut cpu, &mut pins, 3);
    assert_eq!(pc(&cpu), 0x12_3456);
}

#[test]
fn fetch_takes_three_cycles() {
    let (mut cpu, mut pins) = machine(&[MOV_I, 0xAB, 0xCD, 0, 0]);
    turns(&mut cpu, &mut pins, 3);
    turn(&mut cpu, &mut pins);
    assert!(!cpu.is_word());
    assert_eq!(pins.address, 0x0100);
    turn(&mut cpu, &mut pins);
    assert!(cpu.is_word());
    assert_eq!(pins.address, 0x0101);
    assert_eq!(cpu.instruction().opcode, MOV_I);
    turn(&mut cpu, &mut pins);
    assert_eq!(cpu.instruction().metadata.data(), 0xABCD);
    assert_eq!(cpu.state(), CPUState::Execute);
    assert_eq!(cpu.cycle_count(), 1);
    assert_eq!(pc(&cpu), 0x0103);
    assert!(!pins.bus_enable);
}

#[test]
fn move_immediate_loads_a_register() {
    let (mut cpu, mut pins) = machine(&[MOV_I, 0x00, 0x01, 0x80, 0x01]);
    boot(&mut cpu, &mut pins);
    run(&mut cpu, &mut pins, &[2]);
    assert_eq!(cpu.register_word(RegisterName::B), 0x8001);
    assert!(!flag(&cpu, Z));
    assert!(flag(&cpu, N));
    assert_eq!(pc(&cpu), 0x0105);
    assert_eq!(cpu.state(), CPUState::Fetch);
}

#[test]
fn move_immediate_of_zero_sets_zero() {
    let (mut cpu, mut pins) = machine(&[MOV_I, 0x00, 0x00, 0x00, 0x00]);
    boot(&mut cpu, &mut pins);
    run(&mut cpu, &mut pins, &[2]);
    assert_eq!(cpu.register_word(RegisterName::A), 0);
    assert!(flag(&cpu, Z));
    assert!(!flag(&cpu, N));
    assert_eq!(pc(&cpu), 0x0105);
}

#[test]
fn a_move_decides_zero_and_negative_anew() {
    let (mut cpu, mut pins) = machine(&[
        MOV_I, 0x00, 0x00, 0x00, 0x00, MOV_I, 0x00, 0x00, 0x00, 0x07, MOV_I, 0x00, 0x00, 0x80,
        0x00, MOV_I, 0x00, 0x00, 0x00, 0x00,
    ]);
    boot(&mut cpu, &mut pins);
    run(&mut cpu, &mut pins, &[2]);
    assert!(flag(&cpu, Z));
    assert!(!flag(&cpu, N));
    run(&mut cpu, &mut pins, &[2]);
    assert_eq!(cpu.register_word(RegisterName::A), 7);
    assert!(!flag(&cpu, Z));
    assert!(!flag(&cpu, N));
    run(&mut cpu, &mut pins, &[2]);
    assert!(!flag(&cpu, Z));
    assert!(flag(&cpu, N));
    run(&mut cpu, &mut pins, &[2]);
    assert!(flag(&cpu, Z));
    assert!(!flag(&cpu, N));
}

#[test]
fn move_byte_into_half_a_register() {
    // selector 8 is the upper half of the first register, selector 9 the lower
    let (mut cpu, mut pins) =
        machine(&[MOVB_I, 0x00, 0x08, 0x12, MOVB_I, 0x00, 0x09, 0x34]);
    boot(&mut cpu, &mut pins);
    run(&mut cpu, &mut pins, &[2]);
    assert_eq!(cpu.register_word(RegisterName::A), 0x1200);
    assert_eq!(pc(&cpu), 0x0104);
    run(&mut cpu, &mut pins, &[2]);
    assert_eq!(cpu.register_word(RegisterName::A), 0x1234);
    assert_eq!(pc(&cpu), 0x0108);
}

#[test]
fn selectors_alias_the_whole_registers() {
    for (selector, name) in [
        (0u8, RegisterName::A),
        (1, RegisterName::B),
        (2, RegisterName::C),
        (3, RegisterName::D),
        (4, RegisterName::A),
        (5, RegisterName::B),
        (6, RegisterName::C),
        (7, RegisterName::D),
    ] {
        let (mut cpu, mut pins) = machine(&[MOV_I, 0x00, selector, 0xBE, 0xEF]);
        boot(&mut cpu, &mut pins);
        run(&mut cpu, &mut pins, &[2]);
        assert_eq!(cpu.register_word(name), 0xBEEF);
    }
}

#[test]
fn move_register_to_register() {
    // reg0 = 1 is the source, reg1 = 2 the target
    let (mut cpu, mut pins) = machine(&[MOV_I, 0x00, 0x01, 0x12, 0x34, MOV_R, 0x00, 0x21]);
    boot(&mut cpu, &mut pins);
    run(&mut cpu, &mut pins, &[2, 1]);
    assert_eq!(cpu.register_word(RegisterName::C), 0x1234);
    assert_eq!(pc(&cpu), 0x0108);
    assert_eq!(cpu.state(), CPUState::Fetch);
}

#[test]
fn store_and_move_absolute() {
    // MOV a, 0xCAFE; ST a, [0x01:0x2000]; MOV b, [0x01:0x2000]
    let (mut cpu, mut pins) = machine(&[
        MOV_I, 0x00, 0x00, 0xCA, 0xFE, ST_A, 0x00, 0x00, 0x01, 0x20, 0x00, MOV_A, 0x00, 0x01,
        0x01, 0x20, 0x00,
    ]);
    boot(&mut cpu, &mut pins);
    run(&mut cpu, &mut pins, &[2]);
    run(&mut cpu, &mut pins, &[4]);
    assert_eq!(pc(&cpu), 0x010B);
    run(&mut cpu, &mut pins, &[4]);
    assert_eq!(cpu.register_word(RegisterName::B), 0xCAFE);
    assert_eq!(pc(&cpu), 0x0111);
}

#[test]
fn displacement_moves_the_address() {
    // offset 5, sign clear: metadata 0x0500; the operand is read at 0x2005
    let (mut cpu, mut pins) = machine(&[MOV_A, 0x05, 0x00, 0x00, 0x20, 0x00]);
    boot(&mut cpu, &mut pins);
    turns(&mut cpu, &mut pins, 3 + 3);
    assert_eq!(pins.address, 0x2005);
    // offset 5, sign set: metadata 0x4500; the displacement is 5 - 128
    let (mut cpu, mut pins) = machine(&[MOV_A, 0x45, 0x00, 0x00, 0x20, 0x00]);
    boot(&mut cpu, &mut pins);
    turns(&mut cpu, &mut pins, 3 + 3);
    assert_eq!(pins.address, 0x2000 + 5 - 128);
}

#[test]
fn index_register_moves_the_address() {
    // MOV b, 0xFFFE (that is -2); MOV a, [0x00:0x2000 + b]: index bit set, and
    // the second selector names the second register, as 5 and as 1
    for selector in [0x50u8, 0x10] {
        let (mut cpu, mut pins) = machine(&[
            MOV_I, 0x00, 0x01, 0xFF, 0xFE, MOV_A, 0x80, selector, 0x00, 0x20, 0x00,
        ]);
        boot(&mut cpu, &mut pins);
        run(&mut cpu, &mut pins, &[2]);
        turns(&mut cpu, &mut pins, 3 + 3);
        assert_eq!(pins.address, 0x1FFE);
    }
    // the displacement plays no part where the index bit is set
    let (mut cpu, mut pins) = machine(&[
        MOV_I, 0x00, 0x02, 0x00, 0x10, MOV_A, 0xBF, 0x20, 0x00, 0x20, 0x00,
    ]);
    boot(&mut cpu, &mut pins);
    run(&mut cpu, &mut pins, &[2]);
    turns(&mut cpu, &mut pins, 3 + 3);
    assert_eq!(pins.address, 0x2010);
    // half a register is taken as it is read: a word with a zero upper byte
    let (mut cpu, mut pins) = machine(&[
        MOV_I, 0x00, 0x01, 0xFF, 0xFE, MOV_A, 0x80, 0xB0, 0x00, 0x20, 0x00,
    ]);
    boot(&mut cpu, &mut pins);
    run(&mut cpu, &mut pins, &[2]);
    turns(&mut cpu, &mut pins, 3 + 3);
    assert_eq!(pins.address, 0x20FE);
}

#[test]
fn add_immediate_with_carry_out() {
    // 0xFFFF + 0x0002 = 0x1_0001
    let (mut cpu, mut pins) =
        machine(&[MOV_I, 0x00, 0x00, 0xFF, 0xFF, ADD_I, 0x00, 0x00, 0x00, 0x02]);
    boot(&mut cpu, &mut pins);
    run(&mut cpu, &mut pins, &[2, 2]);
    assert_eq!(cpu.register_word(RegisterName::A), 0x0001);
    assert!(flag(&cpu, C));
    assert!(flag(&cpu, O));
    assert_eq!(pc(&cpu), 0x010A);
}

#[test]
fn add_takes_the_carry_in() {
    // the first addition leaves carry set; 1 + 1 + carry = 3
    let (mut cpu, mut pins) = machine(&[
        MOV_I, 0x00, 0x00, 0xFF, 0xFF, ADD_I, 0x00, 0x00, 0x00, 0x02, ADD_I, 0x00, 0x00, 0x00,
        0x01,
    ]);
    boot(&mut cpu, &mut pins);
    run(&mut cpu, &mut pins, &[2, 2, 2]);
    assert_eq!(cpu.register_word(RegisterName::A), 0x0003);
    assert!(!flag(&cpu, C));
}

#[test]
fn add_register_takes_the_sum() {
    // 0x0005 + 0xFFFF = 0x1_0004
    let (mut cpu, mut pins) = machine(&[
        MOV_I, 0x00, 0x00, 0x00, 0x05, MOV_I, 0x00, 0x01, 0xFF, 0xFF, ADD_R, 0x00, 0x10,
    ]);
    boot(&mut cpu, &mut pins);
    run(&mut cpu, &mut pins, &[2, 2, 1]);
    assert_eq!(cpu.register_word(RegisterName::A), 0x0004);
    assert_eq!(cpu.register_word(RegisterName::B), 0xFFFF);
    assert!(flag(&cpu, C));
    assert!(!flag(&cpu, Z));
    assert_eq!(pc(&cpu), 0x010E);
}

#[test]
fn add_register_without_carry() {
    let (mut cpu, mut pins) = machine(&[
        MOV_I, 0x00, 0x00, 0x12, 0x34, MOV_I, 0x00, 0x01, 0x01, 0x11, ADD_R, 0x00, 0x10,
    ]);
    boot(&mut cpu, &mut pins);
    run(&mut cpu, &mut pins, &[2, 2, 1]);
    assert_eq!(cpu.register_word(RegisterName::A), 0x1345);
    assert!(!flag(&cpu, C));
}

#[test]
fn add_byte_cuts_the_sum() {
    // 0xF0 + 0x20 = 0x110: carry, result 0x10
    let (mut cpu, mut pins) = machine(&[MOVB_I, 0x00, 0x09, 0xF0, ADDB_I, 0x00, 0x09, 0x20]);
    boot(&mut cpu, &mut pins);
    run(&mut cpu, &mut pins, &[2, 2]);
    assert_eq!(cpu.register_word(RegisterName::A), 0x0010);
    assert!(flag(&cpu, C));
    assert_eq!(pc(&cpu), 0x0108);
}

#[test]
fn subtract_immediate() {
    // 0x0005 - 0x0003: 5 + 0xFFFD = 0x1_0002
    let (mut cpu, mut pins) =
        machine(&[MOV_I, 0x00, 0x00, 0x00, 0x05, SUB_I, 0x00, 0x00, 0x00, 0x03]);
    boot(&mut cpu, &mut pins);
    run(&mut cpu, &mut pins, &[2, 2]);
    assert_eq!(cpu.register_word(RegisterName::A), 0x0002);
    assert!(flag(&cpu, C));
    assert_eq!(pc(&cpu), 0x010A);
}

#[test]
fn subtract_zero_has_no_carry() {
    // the complement of zero is cut to a word: 5 + 0
    let (mut cpu, mut pins) =
        machine(&[MOV_I, 0x00, 0x00, 0x00, 0x05, SUB_I, 0x00, 0x00, 0x00, 0x00]);
    boot(&mut cpu, &mut pins);
    run(&mut cpu, &mut pins, &[2, 2]);
    assert_eq!(cpu.register_word(RegisterName::A), 0x0005);
    assert!(!flag(&cpu, C));
}

#[test]
fn compare_less() {
    let (mut cpu, mut pins) =
        machine(&[MOV_I, 0x00, 0x00, 0x00, 0x10, CMP_I, 0x00, 0x00, 0x00, 0x20]);
    boot(&mut cpu, &mut pins);
    run(&mut cpu, &mut pins, &[2, 2]);
    assert!(flag(&cpu, L));
    assert!(!flag(&cpu, G));
    assert!(!flag(&cpu, Z));
    assert!(flag(&cpu, N));
    assert_eq!(cpu.register_word(RegisterName::A), 0x10);
    assert_eq!(pc(&cpu), 0x010A);
}

#[test]
fn compare_equal() {
    let (mut cpu, mut pins) =
        machine(&[MOV_I, 0x00, 0x00, 0x00, 0x20, CMP_I, 0x00, 0x00, 0x00, 0x20]);
    boot(&mut cpu, &mut pins);
    run(&mut cpu, &mut pins, &[2, 2]);
    assert!(flag(&cpu, Z));
    assert!(!flag(&cpu, L));
    assert!(!flag(&cpu, G));
}

#[test]
fn compare_greater_clears_what_was_set() {
    let (mut cpu, mut pins) = machine(&[
        MOV_I, 0x00, 0x00, 0x00, 0x20, CMP_I, 0x00, 0x00, 0x00, 0x20, CMP_I, 0x00, 0x00, 0x00,
        0x10,
    ]);
    boot(&mut cpu, &mut pins);
    run(&mut cpu, &mut pins, &[2, 2, 2]);
    assert!(flag(&cpu, G));
    assert!(!flag(&cpu, Z));
    assert!(!flag(&cpu, L));
}

#[test]
fn compare_bytes_looks_at_the_low_byte() {
    let (mut cpu, mut pins) =
        machine(&[MOV_I, 0x00, 0x00, 0x12, 0x34, CMPB_I, 0x00, 0x00, 0x34]);
    boot(&mut cpu, &mut pins);
    run(&mut cpu, &mut pins, &[2, 2]);
    assert!(flag(&cpu, Z));
    assert_eq!(pc(&cpu), 0x0109);
}

#[test]
fn logic_instructions() {
    let (mut cpu, mut pins) =
        machine(&[MOV_I, 0x00, 0x00, 0x0F, 0xF0, XOR_I, 0x00, 0x00, 0xFF, 0xFF]);
    boot(&mut cpu, &mut pins);
    run(&mut cpu, &mut pins, &[2, 2]);
    assert_eq!(cpu.register_word(RegisterName::A), 0xF00F);
    assert!(flag(&cpu, N));
    assert_eq!(pc(&cpu), 0x010A);

    let (mut cpu, mut pins) =
        machine(&[MOV_I, 0x00, 0x00, 0x0F, 0xF0, AND_I, 0x00, 0x00, 0x3C, 0x3C]);
    boot(&mut cpu, &mut pins);
    run(&mut cpu, &mut pins, &[2, 2]);
    assert_eq!(cpu.register_word(RegisterName::A), 0x0C30);

    let (mut cpu, mut pins) = machine(&[MOV_I, 0x00, 0x00, 0x0F, 0xF0, XORB_I, 0x00, 0x00, 0x3C]);
    boot(&mut cpu, &mut pins);
    run(&mut cpu, &mut pins, &[2, 2]);
    assert_eq!(cpu.register_word(RegisterName::A), 0x0FCC);
    assert!(flag(&cpu, N));
    assert_eq!(pc(&cpu), 0x0109);
}

#[test]
fn decrement_wraps() {
    let (mut cpu, mut pins) = machine(&[DEC_R, 0x00, 0x00]);
    boot(&mut cpu, &mut pins);
    run(&mut cpu, &mut pins, &[1]);
    assert_eq!(cpu.register_word(RegisterName::A), 0xFFFF);
    assert!(flag(&cpu, N));
    assert!(!flag(&cpu, Z));
}

#[test]
fn shift_and_rotate() {
    let (mut cpu, mut pins) = machine(&[MOV_I, 0x00, 0x00, 0x80, 0x01, SBL_R, 0x00, 0x00]);
    boot(&mut cpu, &mut pins);
    run(&mut cpu, &mut pins, &[2, 1]);
    assert_eq!(cpu.register_word(RegisterName::A), 0x0002);
    assert!(flag(&cpu, C));

    let (mut cpu, mut pins) = machine(&[MOV_I, 0x00, 0x00, 0x80, 0x01, ROL_R, 0x00, 0x00]);
    boot(&mut cpu, &mut pins);
    run(&mut cpu, &mut pins, &[2, 1]);
    assert_eq!(cpu.register_word(RegisterName::A), 0x0003);
    assert!(flag(&cpu, C));
}

#[test]
fn flag_instructions() {
    let (mut cpu, mut pins) = machine(&[SEI_M, 0, 0, CLI_M, 0, 0]);
    boot(&mut cpu, &mut pins);
    run(&mut cpu, &mut pins, &[1]);
    assert!(flag(&cpu, I));
    run(&mut cpu, &mut pins, &[1]);
    assert!(!flag(&cpu, I));

    let (mut cpu, mut pins) = machine(&[
        MOV_I, 0x00, 0x00, 0xFF, 0xFF, ADD_I, 0x00, 0x00, 0x00, 0x02, CLC_M, 0, 0,
    ]);
    boot(&mut cpu, &mut pins);
    run(&mut cpu, &mut pins, &[2, 2]);
    assert!(flag(&cpu, C));
    assert!(flag(&cpu, O));
    run(&mut cpu, &mut pins, &[1]);
    assert!(!flag(&cpu, C));
    assert!(flag(&cpu, O));
}

#[test]
fn jump_goes_to_the_address() {
    let (mut cpu, mut pins) = machine(&[JMP_A, 0x00, 0x00, 0x01, 0x23, 0x45]);
    boot(&mut cpu, &mut pins);
    run(&mut cpu, &mut pins, &[3]);
    assert_eq!(pc(&cpu), 0x01_2345);
    assert_eq!(cpu.state(), CPUState::Fetch);
}

#[test]
fn branch_taken_and_not_taken() {
    // zero is clear after reset: BIZ falls through, one byte behind its operand
    let (mut cpu, mut pins) = machine(&[BIZ_A, 0x00, 0x00, 0x00, 0x02, 0x00]);
    boot(&mut cpu, &mut pins);
    run(&mut cpu, &mut pins, &[3]);
    assert_eq!(pc(&cpu), 0x0107);
    // BNZ is taken
    let (mut cpu, mut pins) = machine(&[BNZ_A, 0x00, 0x00, 0x00, 0x02, 0x00]);
    boot(&mut cpu, &mut pins);
    run(&mut cpu, &mut pins, &[3]);
    assert_eq!(pc(&cpu), 0x0200);
}

fn program_with_routines() -> (CPU<RAM, Out>, Pins) {
    // 0x0100: JSR 0x0200; 0x0200: JSR 0x0300; 0x0206: RTS; 0x0300: RTS
    let mut ram = RAM::new(
        ExtendedAddress::new_ext_address(0x00_0000),
        ExtendedAddress::new_ext_address(0x01_FFFF),
    );
    for (at, bytes) in [
        (0x0000usize, vec![0x00u8, 0x01, 0x00]),
        (0x0006, vec![0x00, 0x04, 0x00]),
        (0x0100, vec![JSR_A, 0x00, 0x00, 0x00, 0x02, 0x00, MOV_I, 0x00, 0x03, 0x00, 0x2A]),
        (0x0200, vec![JSR_A, 0x00, 0x00, 0x00, 0x03, 0x00, RTS_M, 0x00, 0x00]),
        (0x0300, vec![RTS_M, 0x00, 0x00]),
        (0x0400, vec![RTS_M, 0x00, 0x00]),
    ] {
        for (i, byte) in bytes.iter().enumerate() {
            assert!(ram.poke(at + i, *byte));
        }
    }
    let mut cpu = CPU::new(table(), None);
    cpu.add_device(ram);
    let mut pins = Pins::default();
    cpu.reset(&mut pins);
    (cpu, pins)
}

#[test]
fn call_pushes_the_return_address() {
    let (mut cpu, mut pins) = program_with_routines();
    boot(&mut cpu, &mut pins);
    run(&mut cpu, &mut pins, &[6]);
    assert_eq!(pc(&cpu), 0x0200);
    assert_eq!(cpu.stack_pointer().get_value(), 4);
    assert_eq!(cpu.read(ExtendedAddress::new_ext_address(0x01_0001)), DeviceResult::Ok16(0x0001));
    assert_eq!(cpu.read(ExtendedAddress::new_ext_address(0x01_0002)), DeviceResult::Ok16(0x0106));
}

#[test]
fn call_saves_the_status_byte_and_return_restores_it() {
    // 0x0100: MOV a, 0; 0x0105: JSR 0x0120; 0x0120: MOV a, 7; 0x0125: RTS
    let mut program = vec![MOV_I, 0x00, 0x00, 0x00, 0x00, JSR_A, 0x00, 0x00, 0x00, 0x01, 0x20];
    program.resize(0x20, 0);
    program.extend([MOV_I, 0x00, 0x00, 0x00, 0x07, RTS_M, 0x00, 0x00]);
    let (mut cpu, mut pins) = machine(&program);
    boot(&mut cpu, &mut pins);
    run(&mut cpu, &mut pins, &[2]);
    assert_eq!(cpu.status_word(), Z);
    run(&mut cpu, &mut pins, &[6]);
    assert_eq!(pc(&cpu), 0x0120);
    assert_eq!(cpu.stack_pointer().get_value(), 4);
    assert_eq!(cpu.status_word(), Z);
    // the status byte, the bank, and the offset of the address behind the call
    assert_eq!(cpu.read(ExtendedAddress::new_ext_address(0x01_0000)), DeviceResult::Ok16(0x0100));
    assert_eq!(cpu.read(ExtendedAddress::new_ext_address(0x01_0002)), DeviceResult::Ok16(0x010B));
    run(&mut cpu, &mut pins, &[2]);
    assert_eq!(cpu.register_word(RegisterName::A), 7);
    assert_eq!(cpu.status_word(), 0);
    run(&mut cpu, &mut pins, &[5]);
    assert_eq!(pc(&cpu), 0x010B);
    assert_eq!(cpu.stack_pointer().get_value(), 0);
    assert_eq!(cpu.status_word(), Z);
}

#[test]
fn call_and_return_restore_pc_and_sp() {
    let (mut cpu, mut pins) = program_with_routines();
    boot(&mut cpu, &mut pins);
    run(&mut cpu, &mut pins, &[6]);
    // the nested call
    run(&mut cpu, &mut pins, &[6]);
    assert_eq!(pc(&cpu), 0x0300);
    assert_eq!(cpu.stack_pointer().get_value(), 8);
    // the inner return
    run(&mut cpu, &mut pins, &[5]);
    assert_eq!(pc(&cpu), 0x0206);
    assert_eq!(cpu.stack_pointer().get_value(), 4);
    // the outer return
    run(&mut cpu, &mut pins, &[5]);
    assert_eq!(pc(&cpu), 0x0106);
    assert_eq!(cpu.stack_pointer().get_value(), 0);
    assert_eq!(cpu.stack_pointer().get_page(), 1);
    // and the program goes on behind the call
    run(&mut cpu, &mut pins, &[2]);
    assert_eq!(cpu.register_word(RegisterName::D), 0x002A);
}

#[test]
fn interrupt_waits_for_the_end_of_the_instruction() {
    let (mut cpu, mut pins) = program_with_routines();
    // reset, fetch, and the first three cycles of the call
    boot(&mut cpu, &mut pins);
    turns(&mut cpu, &mut pins, 3 + 3);
    pins.irq.req = true;
    pins.irq.data = 2;
    for _ in 0..2 {
        turn(&mut cpu, &mut pins);
        assert_eq!(cpu.interrupt_status(), InterruptStatus::Normal);
        assert_eq!(cpu.state(), CPUState::Execute);
    }
    turn(&mut cpu, &mut pins);
    assert_eq!(cpu.state(), CPUState::Interrupt);
    assert_eq!(cpu.cycle_count(), 1);
    assert_eq!(pc(&cpu), 0x0200);
    assert_eq!(cpu.stack_pointer().get_value(), 4);

    // the entry: acknowledge for one cycle, then vector and pushes
    turn(&mut cpu, &mut pins);
    assert!(pins.irq.ack);
    pins.irq.req = false;
    turn(&mut cpu, &mut pins);
    assert!(!pins.irq.ack);
    assert_eq!(pins.address, 6);
    turns(&mut cpu, &mut pins, 7);
    assert_eq!(cpu.state(), CPUState::Fetch);
    assert_eq!(cpu.interrupt_status(), InterruptStatus::Idle);
    assert_eq!(pc(&cpu), 0x0400);
    assert_eq!(cpu.stack_pointer().get_value(), 8);

    // the routine returns to the instruction that would have come next
    run(&mut cpu, &mut pins, &[5]);
    assert_eq!(pc(&cpu), 0x0200);
    assert_eq!(cpu.stack_pointer().get_value(), 4);
}

#[test]
fn request_wins_over_non_maskable_in_one_cycle() {
    let (mut cpu, mut pins) = machine(&[]);
    pins.irq.req = true;
    pins.irq.nmi = true;
    turn(&mut cpu, &mut pins);
    assert_eq!(cpu.interrupt_status(), InterruptStatus::Normal);

    let (mut cpu, mut pins) = machine(&[]);
    pins.irq.nmi = true;
    turn(&mut cpu, &mut pins);
    assert_eq!(cpu.interrupt_status(), InterruptStatus::NonMaskable);
    pins.irq.req = true;
    turn(&mut cpu, &mut pins);
    assert_eq!(cpu.interrupt_status(), InterruptStatus::NonMaskable);
}

#[test]
fn non_maskable_interrupt_stays_latched() {
    let mut ram = RAM::new(
        ExtendedAddress::new_ext_address(0x00_0000),
        ExtendedAddress::new_ext_address(0x01_FFFF),
    );
    for (i, byte) in [0x00u8, 0x01, 0x00, 0x00, 0x04, 0x00].iter().enumerate() {
        ram.poke(i, *byte);
    }
    ram.poke(0x0100, CLC_M);
    let mut cpu: CPU<RAM, Out> = CPU::new(table(), None);
    cpu.add_device(ram);
    let mut pins = Pins::default();
    cpu.reset(&mut pins);
    boot(&mut cpu, &mut pins);
    turns(&mut cpu, &mut pins, 3);
    pins.irq.nmi = true;
    turn(&mut cpu, &mut pins);
    pins.irq.nmi = false;
    assert_eq!(cpu.state(), CPUState::Interrupt);
    turns(&mut cpu, &mut pins, 2);
    assert_eq!(pins.address, 3);
    turns(&mut cpu, &mut pins, 7);
    assert_eq!(pc(&cpu), 0x0400);
    assert_eq!(cpu.interrupt_status(), InterruptStatus::NonMaskable);
    assert_eq!(cpu.state(), CPUState::Interrupt);
}

#[test]
fn halt_freezes_the_engine() {
    let (mut cpu, mut pins) = machine(&[HLT_M, 0, 0]);
    boot(&mut cpu, &mut pins);
    run(&mut cpu, &mut pins, &[1]);
    assert_eq!(cpu.state(), CPUState::Halt);
    let count = cpu.cycle_count();
    for _ in 0..5 {
        assert_eq!(cpu.cycle(&mut pins), Ok(Status::Running));
        assert_eq!(cpu.state(), CPUState::Halt);
        assert_eq!(cpu.cycle_count(), count);
    }
}

#[test]
fn halt_tells_the_caller_to_stop() {
    let mut ram = RAM::new(
        ExtendedAddress::new_ext_address(0),
        ExtendedAddress::new_ext_address(0xFFFF),
    );
    ram.poke(1, 0x01);
    ram.poke(0x0100, HLT_M);
    let mut cpu: CPU<RAM, Out> = CPU::new(table(), Some(EmuOptions::new_value(1)));
    cpu.add_device(ram);
    let mut pins = Pins::default();
    cpu.reset(&mut pins);
    boot(&mut cpu, &mut pins);
    run(&mut cpu, &mut pins, &[1]);
    assert_eq!(cpu.cycle(&mut pins), Ok(Status::Exit));
    assert_eq!(cpu.cycle(&mut pins), Ok(Status::Exit));
}

#[test]
fn unknown_opcode_is_a_fault() {
    let (mut cpu, mut pins) = machine(&[0xFE, 0, 0]);
    boot(&mut cpu, &mut pins);
    turns(&mut cpu, &mut pins, 3);
    let before = (pc(&cpu), cpu.cycle_count(), cpu.state(), pins.bus_enable);
    assert_eq!(cpu.cycle(&mut pins), Err(Fault::UnknownOpcode));
    assert_eq!((pc(&cpu), cpu.cycle_count(), cpu.state(), pins.bus_enable), before);
}

#[test]
fn table_faults_come_at_dispatch() {
    for (opcode, fault) in [
        (OR_I, Fault::UnknownMnemonic),
        (200, Fault::BadMode),
        (201, Fault::MalformedEntry),
        (202, Fault::UnknownMode),
    ] {
        let (mut cpu, mut pins) = machine(&[opcode, 0, 0]);
        boot(&mut cpu, &mut pins);
        turns(&mut cpu, &mut pins, 3);
        assert_eq!(cpu.cycle(&mut pins), Err(fault));
    }
}

#[test]
fn a_cycle_out_of_range_is_a_fault() {
    let (mut cpu, mut pins) = machine(&[]);
    assert_eq!(cpu.CLC(&mut pins, AddressingMode::Implied), Ok(()));
    assert_eq!(cpu.cycle_count(), 0);
    assert_eq!(cpu.JMP(&mut pins, AddressingMode::Absolute), Err(Fault::BadCycle));
    assert_eq!(cpu.RTS(&mut pins, AddressingMode::Implied), Err(Fault::BadCycle));
    assert_eq!(cpu.MOV(&mut pins, AddressingMode::Immediate), Err(Fault::BadCycle));
    assert_eq!(cpu.MOV(&mut pins, AddressingMode::Implied), Err(Fault::BadMode));
    assert_eq!(cpu.cycle_count(), 0);
}

#[test]
fn push_immediate_moves_the_stack_pointer() {
    let (mut cpu, mut pins) = machine(&[PSH_I, 0x00, 0x00, 0xAB, 0xCD]);
    boot(&mut cpu, &mut pins);
    run(&mut cpu, &mut pins, &[3]);
    assert_eq!(cpu.stack_pointer().get_value(), 2);
    assert_eq!(pc(&cpu), 0x0105);
    assert_eq!(cpu.read(ExtendedAddress::new_ext_address(0x01_0000)), DeviceResult::Ok8(0xAB));
    assert_eq!(cpu.read(ExtendedAddress::new_ext_address(0x01_0001)), DeviceResult::Ok8(0xCD));
}

#[test]
fn output_reaches_the_port() {
    // two OUTs of the low byte of the first register to port 0xA0:
    // a zero chooses the number form, the second byte is shown
    let (mut cpu, mut pins) = machine(&[
        OUT_I, 0x00, 0x00, 0xA0, MOV_I, 0x00, 0x00, 0x00, 0x2A, OUT_I, 0x00, 0x00, 0xA0,
    ]);
    boot(&mut cpu, &mut pins);
    turns(&mut cpu, &mut pins, 3 + 2);
    assert!(pins.io_enable);
    assert_eq!(pins.io_address, 0xA0);
    assert_eq!(pins.io_data, 0);
    turn(&mut cpu, &mut pins);
    assert!(!pins.io_enable);
    assert_eq!(pc(&cpu), 0x0104);
    run(&mut cpu, &mut pins, &[2]);
    turns(&mut cpu, &mut pins, 3 + 2);
    assert_eq!(pins.io_data, 0x2A);
    turn(&mut cpu, &mut pins);
    assert_eq!(cpu.state(), CPUState::Fetch);
}

#[test]
fn input_from_a_write_only_port_is_a_bus_error() {
    let (mut cpu, mut pins) = machine(&[IN_I, 0x00, 0x00, 0xA0]);
    boot(&mut cpu, &mut pins);
    turns(&mut cpu, &mut pins, 3 + 1);
    assert_eq!(cpu.cycle(&mut pins), Ok(Status::Running));
    assert_eq!(cpu.resolve(&mut pins), Err(DeviceResult::WriteOnly));
}

#[test]
fn no_device_is_a_bus_error() {
    let (mut cpu, mut pins) = machine(&[JMP_A, 0x00, 0x00, 0x7F, 0x00, 0x00]);
    boot(&mut cpu, &mut pins);
    run(&mut cpu, &mut pins, &[3]);
    assert_eq!(pc(&cpu), 0x7F_0000);
    assert_eq!(cpu.cycle(&mut pins), Ok(Status::Running));
    let address = pins.address;
    assert_eq!(cpu.resolve(&mut pins), Err(DeviceResult::NoValidDevice));
    assert_eq!(pins.address, address);
    assert_eq!(cpu.read_io(0x01), DeviceResult::NoValidDevice);
    assert_eq!(cpu.write_io(0x01, 0), DeviceResult::NoValidDevice);
}

#[test]
fn first_registered_device_wins() {
    let mut first = RAM::new(
        ExtendedAddress::new_ext_address(0x0000),
        ExtendedAddress::new_ext_address(0x00FF),
    );
    let mut second = RAM::new(
        ExtendedAddress::new_ext_address(0x0080),
        ExtendedAddress::new_ext_address(0x01FF),
    );
    first.poke(0x80, 1);
    second.poke(0x00, 2);
    second.poke(0x80, 3);
    let mut cpu: CPU<RAM, Out> = CPU::new(table(), None);
    cpu.add_device(first);
    cpu.add_device(second);
    assert_eq!(cpu.read(ExtendedAddress::new_ext_address(0x0080)), DeviceResult::Ok8(1));
    assert_eq!(cpu.read(ExtendedAddress::new_ext_address(0x0100)), DeviceResult::Ok8(3));
    assert_eq!(cpu.write(ExtendedAddress::new_ext_address(0x0080), 9), DeviceResult::Done);
    assert_eq!(cpu.read(ExtendedAddress::new_ext_address(0x0080)), DeviceResult::Ok8(9));
    assert_eq!(cpu.read(ExtendedAddress::new_ext_address(0x0200)), DeviceResult::NoValidDevice);
    assert_eq!(
        cpu.write(ExtendedAddress::new_ext_address(0x0200), 0),
        DeviceResult::NoValidDevice
    );
}

#[test]
fn io_devices_match_the_port_exactly() {
    let mut cpu: CPU<RAM, Out> = CPU::new(table(), None);
    cpu.add_io_device(Out::new(0xA0));
    assert_eq!(cpu.write_io(0xA0, 1), DeviceResult::Done);
    assert_eq!(cpu.read_io(0xA0), DeviceResult::WriteOnly);
    assert_eq!(cpu.write_io(0xA1, 1), DeviceResult::NoValidDevice);
    assert_eq!(cpu.write_io(0x20, 1), DeviceResult::NoValidDevice);
}

#[test]
fn ram_size_is_known_to_the_engine_only_through_reads() {
    let ram = RAM::new(
        ExtendedAddress::new_ext_address(0x10),
        ExtendedAddress::new_ext_address(0x1F),
    );
    assert_eq!(ram.size(), 0x0F);
    assert_eq!(ram.relative(ExtendedAddress::new_ext_address(0x18)), 8);
}

#[test]
fn calls_nest_to_any_depth() {
    // routine k lies at 0x1000 + 0x10 * k: a call of routine k + 1 and a
    // return; the last is a return alone
    let depth: usize = 40;
    let mut ram = RAM::new(
        ExtendedAddress::new_ext_address(0x00_0000),
        ExtendedAddress::new_ext_address(0x01_FFFF),
    );
    for (i, byte) in [0x00u8, 0x01, 0x00].iter().enumerate() {
        ram.poke(i, *byte);
    }
    for (i, byte) in [JSR_A, 0x00, 0x00, 0x00, 0x10, 0x00].iter().enumerate() {
        ram.poke(0x0100 + i, *byte);
    }
    for k in 0..depth {
        let at = 0x1000 + 0x10 * k;
        let next = 0x1000 + 0x10 * (k + 1);
        let routine =
            [JSR_A, 0x00, 0x00, 0x00, (next >> 8) as u8, next as u8, RTS_M, 0x00, 0x00];
        for (i, byte) in routine.iter().enumerate() {
            ram.poke(at + i, *byte);
        }
    }
    ram.poke(0x1000 + 0x10 * depth, RTS_M);
    let mut cpu: CPU<RAM, Out> = CPU::new(table(), None);
    cpu.add_device(ram);
    let mut pins = Pins::default();
    cpu.reset(&mut pins);
    boot(&mut cpu, &mut pins);

    // down: one call for each level
    run(&mut cpu, &mut pins, &[6]);
    for k in 0..depth {
        assert_eq!(pc(&cpu), 0x1000 + 0x10 * k as u32);
        assert_eq!(cpu.stack_pointer().get_value(), 4 * (k as u16 + 1));
        run(&mut cpu, &mut pins, &[6]);
    }
    assert_eq!(pc(&cpu), 0x1000 + 0x10 * depth as u32);
    assert_eq!(cpu.stack_pointer().get_value(), 4 * (depth as u16 + 1));

    // up: one return for each level
    for k in (0..depth).rev() {
        run(&mut cpu, &mut pins, &[5]);
        assert_eq!(pc(&cpu), 0x1000 + 0x10 * k as u32 + 6);
        assert_eq!(cpu.stack_pointer().get_value(), 4 * (k as u16 + 1));
    }
    run(&mut cpu, &mut pins, &[5]);
    assert_eq!(pc(&cpu), 0x0106);
    assert_eq!(cpu.stack_pointer().get_value(), 0);
}

fn byte_at(cpu: &mut CPU<RAM, Out>, address: u32) -> u8 {
    assert!(!cpu.is_word());
    match cpu.read(ExtendedAddress::new_ext_address(address)) {
        DeviceResult::Ok8(byte) => byte,
        other => panic!("no byte at {:#08x}: {:?}", address, other),
    }
}

#[test]
fn subtract_bytes() {
    // 0x10 - 0x01: 0x10 + 0xFE + 1 = 0x10F
    let (mut cpu, mut pins) = machine(&[MOVB_I, 0x00, 0x09, 0x10, SUBB_I, 0x00, 0x09, 0x01]);
    boot(&mut cpu, &mut pins);
    run(&mut cpu, &mut pins, &[2, 2]);
    assert_eq!(cpu.register_word(RegisterName::A), 0x000F);
    assert!(flag(&cpu, C));
    assert!(!flag(&cpu, Z));
    assert!(!flag(&cpu, N));
    assert_eq!(pc(&cpu), 0x0108);
}

#[test]
fn subtract_registers() {
    // a = 7, b = 2: 7 + 0xFFFE = 0x1_0005
    let (mut cpu, mut pins) = machine(&[
        MOV_I, 0x00, 0x00, 0x00, 0x07, MOV_I, 0x00, 0x01, 0x00, 0x02, SUB_R, 0x00, 0x10,
    ]);
    boot(&mut cpu, &mut pins);
    run(&mut cpu, &mut pins, &[2, 2, 1]);
    assert_eq!(cpu.register_word(RegisterName::A), 0x0005);
    assert_eq!(cpu.register_word(RegisterName::B), 0x0002);
    assert!(flag(&cpu, C));
    assert_eq!(pc(&cpu), 0x010E);
}

#[test]
fn add_absolute() {
    // a = 0x0100; the word at 0x00:0x0200 is 0x0023
    let mut program = vec![MOV_I, 0x00, 0x00, 0x01, 0x00, ADD_A, 0x00, 0x00, 0x00, 0x02, 0x00];
    program.resize(0x100, 0);
    program.extend_from_slice(&[0x00, 0x23]);
    let (mut cpu, mut pins) = machine(&program);
    boot(&mut cpu, &mut pins);
    run(&mut cpu, &mut pins, &[2, 4]);
    assert_eq!(cpu.register_word(RegisterName::A), 0x0123);
    assert!(!flag(&cpu, C));
    // three bytes of operand, and one more at the end
    assert_eq!(pc(&cpu), 0x0105 + 3 + 3 + 1);
}

#[test]
fn shift_byte_keeps_the_low_byte() {
    let (mut cpu, mut pins) = machine(&[MOV_I, 0x00, 0x00, 0x00, 0xC1, SBLB_R, 0x00, 0x00]);
    boot(&mut cpu, &mut pins);
    run(&mut cpu, &mut pins, &[2, 1]);
    assert_eq!(cpu.register_word(RegisterName::A), 0x0082);
    assert!(flag(&cpu, C));
    assert!(flag(&cpu, N));
    assert!(!flag(&cpu, Z));
}

#[test]
fn shift_byte_to_zero_sets_zero() {
    let (mut cpu, mut pins) = machine(&[MOV_I, 0x00, 0x00, 0x00, 0x80, SBLB_R, 0x00, 0x00]);
    boot(&mut cpu, &mut pins);
    run(&mut cpu, &mut pins, &[2, 1]);
    assert_eq!(cpu.register_word(RegisterName::A), 0x0000);
    assert!(flag(&cpu, C));
    assert!(flag(&cpu, Z));
    assert!(!flag(&cpu, N));
}

#[test]
fn shift_in_memory() {
    // the word at 0x01:0x0010 is 0x8001
    let (mut cpu, mut pins) = machine(&[
        MOV_I, 0x00, 0x00, 0x80, 0x01, ST_A, 0x00, 0x00, 0x01, 0x00, 0x10, SBL_A, 0x00, 0x00,
        0x01, 0x00, 0x10, SEI_M, 0x00, 0x00,
    ]);
    boot(&mut cpu, &mut pins);
    run(&mut cpu, &mut pins, &[2, 4, 5]);
    assert!(flag(&cpu, C));
    assert_eq!(pc(&cpu), 0x0111);
    run(&mut cpu, &mut pins, &[1]);
    // the bus is a byte wide again after the next fetch has begun
    turn(&mut cpu, &mut pins);
    assert_eq!(byte_at(&mut cpu, 0x01_0010), 0x00);
    assert_eq!(byte_at(&mut cpu, 0x01_0011), 0x02);
}

#[test]
fn decrement_in_memory() {
    let (mut cpu, mut pins) = machine(&[
        MOV_I, 0x00, 0x00, 0x01, 0x00, ST_A, 0x00, 0x00, 0x01, 0x00, 0x10, DEC_A, 0x00, 0x00,
        0x01, 0x00, 0x10, SEI_M, 0x00, 0x00,
    ]);
    boot(&mut cpu, &mut pins);
    run(&mut cpu, &mut pins, &[2, 4, 5, 1]);
    turn(&mut cpu, &mut pins);
    assert_eq!(byte_at(&mut cpu, 0x01_0010), 0x00);
    assert_eq!(byte_at(&mut cpu, 0x01_0011), 0xFF);
}

#[test]
fn decrement_byte_in_memory() {
    // the byte at 0x01:0x0010 is 0x01: less one it is zero
    let (mut cpu, mut pins) = machine(&[
        MOVB_I, 0x00, 0x09, 0x01, STB_A, 0x00, 0x09, 0x01, 0x00, 0x10, DECB_A, 0x00, 0x00, 0x01,
        0x00, 0x10, SEI_M, 0x00, 0x00,
    ]);
    boot(&mut cpu, &mut pins);
    run(&mut cpu, &mut pins, &[2, 4]);
    assert!(!flag(&cpu, Z));
    run(&mut cpu, &mut pins, &[5]);
    assert!(flag(&cpu, Z));
    run(&mut cpu, &mut pins, &[1]);
    turn(&mut cpu, &mut pins);
    assert_eq!(byte_at(&mut cpu, 0x01_0010), 0x00);
}

#[test]
fn compare_with_memory_and_register() {
    let mut program = vec![
        MOV_I, 0x00, 0x00, 0x00, 0x30, CMP_A, 0x00, 0x00, 0x00, 0x02, 0x00, 0x00, MOV_I, 0x00,
        0x01, 0x00, 0x40, CMP_R, 0x00, 0x10,
    ];
    program.resize(0x100, 0);
    program.extend_from_slice(&[0x00, 0x20]);
    let (mut cpu, mut pins) = machine(&program);
    boot(&mut cpu, &mut pins);
    run(&mut cpu, &mut pins, &[2, 4]);
    assert!(flag(&cpu, G));
    assert!(!flag(&cpu, L));
    assert!(!flag(&cpu, Z));
    assert_eq!(pc(&cpu), 0x010C);
    run(&mut cpu, &mut pins, &[2, 1]);
    assert!(flag(&cpu, L));
    assert!(!flag(&cpu, G));
    assert_eq!(pc(&cpu), 0x0114);
}

#[test]
fn xor_with_memory_and_register() {
    let mut program = vec![
        MOV_I, 0x00, 0x00, 0x0F, 0x0F, XOR_A, 0x00, 0x00, 0x00, 0x02, 0x00, 0x00, 0x00, MOV_I,
        0x00, 0x01, 0xFF, 0xFF, XOR_R, 0x00, 0x10,
    ];
    program.resize(0x100, 0);
    program.extend_from_slice(&[0xF0, 0xF0]);
    let (mut cpu, mut pins) = machine(&program);
    boot(&mut cpu, &mut pins);
    run(&mut cpu, &mut pins, &[2, 4]);
    assert_eq!(cpu.register_word(RegisterName::A), 0xFFFF);
    assert_eq!(pc(&cpu), 0x010D);
    run(&mut cpu, &mut pins, &[2, 1]);
    assert_eq!(cpu.register_word(RegisterName::A), 0x0000);
    assert!(flag(&cpu, Z));
}

#[test]
fn branches_follow_their_flags() {
    // after 0xFFFF + 2 carry is set
    let prelude = [MOV_I, 0x00, 0x00, 0xFF, 0xFF, ADD_I, 0x00, 0x00, 0x00, 0x02];
    for (opcode, taken) in [(BIC_A, true), (BNC_A, false), (BIL_A, false), (BIG_A, false)] {
        let mut program = prelude.to_vec();
        program.extend_from_slice(&[opcode, 0x00, 0x00, 0x00, 0x30, 0x00]);
        let (mut cpu, mut pins) = machine(&program);
        boot(&mut cpu, &mut pins);
        run(&mut cpu, &mut pins, &[2, 2, 3]);
        assert_eq!(pc(&cpu), if taken { 0x3000 } else { 0x0111 });
        assert!(!cpu.is_word());
    }
}

#[test]
fn clear_overflow() {
    let (mut cpu, mut pins) = machine(&[
        MOV_I, 0x00, 0x00, 0xFF, 0xFF, ADD_I, 0x00, 0x00, 0x00, 0x02, CLV_M, 0, 0,
    ]);
    boot(&mut cpu, &mut pins);
    run(&mut cpu, &mut pins, &[2, 2]);
    assert!(flag(&cpu, O));
    run(&mut cpu, &mut pins, &[1]);
    assert!(!flag(&cpu, O));
    assert!(flag(&cpu, C));
}

#[test]
fn push_register_writes_and_moves_the_stack_pointer() {
    let (mut cpu, mut pins) = machine(&[
        MOV_I, 0x00, 0x00, 0xAB, 0xCD, PSH_R, 0x00, 0x00, SEI_M, 0x00, 0x00,
    ]);
    boot(&mut cpu, &mut pins);
    run(&mut cpu, &mut pins, &[2]);
    turns(&mut cpu, &mut pins, 3 + 1);
    assert_eq!(pins.address, 0x01_0000);
    assert_eq!(pins.data, 0xABCD);
    assert!(cpu.is_word());
    assert_eq!(cpu.stack_pointer().get_value(), 0);
    turn(&mut cpu, &mut pins);
    assert_eq!(cpu.stack_pointer().get_value(), 2);
    assert_eq!(cpu.state(), CPUState::Fetch);
    assert_eq!(pc(&cpu), 0x0108);
    run(&mut cpu, &mut pins, &[1]);
    turn(&mut cpu, &mut pins);
    assert_eq!(byte_at(&mut cpu, 0x01_0000), 0xAB);
    assert_eq!(byte_at(&mut cpu, 0x01_0001), 0xCD);
}

#[test]
fn push_byte_of_a_register() {
    let (mut cpu, mut pins) = machine(&[
        MOV_I, 0x00, 0x00, 0xAB, 0xCD, PSHB_R, 0x00, 0x00, SEI_M, 0x00, 0x00,
    ]);
    boot(&mut cpu, &mut pins);
    run(&mut cpu, &mut pins, &[2, 2]);
    assert_eq!(cpu.stack_pointer().get_value(), 1);
    run(&mut cpu, &mut pins, &[1]);
    turn(&mut cpu, &mut pins);
    assert_eq!(byte_at(&mut cpu, 0x01_0000), 0xCD);
    assert_eq!(byte_at(&mut cpu, 0x01_0001), 0x00);
}

#[test]
fn the_engine_knows_its_opcodes() {
    let (mut cpu, mut pins) = machine(&[MOV_I, 0x00, 0x00, 0x00, 0x01, 0xFE, 0x00, 0x00]);
    for _ in 0..(3 + 3 + 2 + 3) {
        assert!(cpu.knows_opcode());
        turn(&mut cpu, &mut pins);
    }
    assert_eq!(cpu.state(), CPUState::Execute);
    assert!(!cpu.knows_opcode());
    for opcode in [OR_I, 201, 202] {
        let (mut cpu, mut pins) = machine(&[opcode, 0, 0]);
        boot(&mut cpu, &mut pins);
        turns(&mut cpu, &mut pins, 3);
        assert!(!cpu.knows_opcode());
    }
    // an entry that decodes is known, whatever the instruction makes of the mode
    let (mut cpu, mut pins) = machine(&[200, 0, 0]);
    boot(&mut cpu, &mut pins);
    turns(&mut cpu, &mut pins, 3);
    assert!(cpu.knows_opcode());
}

#[test]
fn push_byte_and_pop() {
    let (mut cpu, mut pins) = machine(&[PSHB_I, 0x00, 0x00, 0x5A, POP_M, 0x00, 0x02]);
    boot(&mut cpu, &mut pins);
    run(&mut cpu, &mut pins, &[3]);
    assert_eq!(cpu.stack_pointer().get_value(), 1);
    assert_eq!(pc(&cpu), 0x0104);
    run(&mut cpu, &mut pins, &[2]);
    assert_eq!(cpu.stack_pointer().get_value(), 0);
    assert_eq!(cpu.register_word(RegisterName::C), 0x005A);
}

#[test]
fn move_byte_from_memory() {
    let mut program = vec![MOVB_A, 0x00, 0x0A, 0x00, 0x02, 0x00];
    program.resize(0x100, 0);
    program.extend_from_slice(&[0x99, 0x77]);
    let (mut cpu, mut pins) = machine(&program);
    boot(&mut cpu, &mut pins);
    run(&mut cpu, &mut pins, &[4]);
    // selector 10 is the upper half of the second register
    assert_eq!(cpu.register_word(RegisterName::B), 0x9900);
    assert!(flag(&cpu, N));
}

struct Keyboard {
    port: u8,
    keys: Vec<u8>,
}

impl hexacore::device::IOMappedDevice for Keyboard {
    fn io_address(&self) -> u8 {
        self.port
    }

    fn io_read(&mut self) -> DeviceResult {
        match self.keys.pop() {
            Some(key) => DeviceResult::Ok8(key),
            None => DeviceResult::InvalidAddress,
        }
    }

    fn io_write(&mut self, _data: u8) -> DeviceResult {
        DeviceResult::ReadOnly
    }

    fn io_name(&self) -> &str {
        "Keyboard"
    }
}

#[test]
fn input_reads_a_port() {
    let mut ram = RAM::new(
        ExtendedAddress::new_ext_address(0x00_0000),
        ExtendedAddress::new_ext_address(0x00_FFFF),
    );
    for (at, byte) in [(1usize, 0x01u8), (0x100, IN_I), (0x102, 0x01), (0x103, 0x20)] {
        ram.poke(at, byte);
    }
    let mut cpu: CPU<RAM, Keyboard> = CPU::new(table(), None);
    cpu.add_device(ram);
    cpu.add_io_device(Keyboard { port: 0x10, keys: vec![1] });
    cpu.add_io_device(Keyboard { port: 0x20, keys: vec![b'k'] });
    cpu.add_io_device(Keyboard { port: 0x20, keys: vec![b'x'] });
    let mut pins = Pins::default();
    cpu.reset(&mut pins);
    for _ in 0..(3 + 3 + 3) {
        assert_eq!(cpu.cycle(&mut pins), Ok(Status::Running));
        assert_eq!(cpu.resolve(&mut pins), Ok(()));
    }
    assert_eq!(cpu.register_word(RegisterName::B), b'k' as u16);
    assert_eq!(cpu.program_counter().value(), 0x0104);
    assert!(!pins.io_enable);
    assert_eq!(cpu.write_io(0x20, 0), DeviceResult::ReadOnly);
    assert_eq!(cpu.read_io(0x20), DeviceResult::InvalidAddress);
    assert_eq!(cpu.read_io(0x10), DeviceResult::Ok8(1));
}

#[test]
fn selectors_decode() {
    let (a, b, c, d) = (RegisterName::A, RegisterName::B, RegisterName::C, RegisterName::D);
    let cpu: CPU<RAM, Out> = CPU::new(table(), None);
    let expected = [
        Full(a),
        Full(b),
        Full(c),
        Full(d),
        Full(a),
        Full(b),
        Full(c),
        Full(d),
        High(a),
        Low(a),
        High(b),
        Low(b),
        High(c),
        Low(c),
        High(d),
        Low(d),
    ];
    for selector in 0..=255u8 {
        assert_eq!(cpu.decode_register(selector), expected[(selector % 16) as usize]);
    }
}

#[test]
fn registers_through_selectors() {
    let mut cpu: CPU<RAM, Out> = CPU::new(table(), None);
    cpu.set_register(Full(RegisterName::B), 0x1234);
    assert_eq!(cpu.get_register(Full(RegisterName::B)), 0x1234);
    assert_eq!(cpu.get_register(High(RegisterName::B)), 0x0012);
    assert_eq!(cpu.get_register(Low(RegisterName::B)), 0x0034);
    // half a register takes the low byte of what it is given
    cpu.set_register(High(RegisterName::B), 0xAB56);
    assert_eq!(cpu.register_word(RegisterName::B), 0x5634);
    cpu.set_register(Low(RegisterName::B), 0xCD78);
    assert_eq!(cpu.register_word(RegisterName::B), 0x5678);
    assert_eq!(cpu.register_word(RegisterName::A), 0);
    assert_eq!(cpu.register_word(RegisterName::C), 0);
    assert_eq!(cpu.register_word(RegisterName::D), 0);
}
