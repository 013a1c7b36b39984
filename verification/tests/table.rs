use std::collections::HashMap;

use hexacore::cpu::{AddressingMode, Fault};
use hexacore::info::{
    build_table, decode, get_instruction_info, same_text, InstructionInfo, InstructionInfoFile,
    Mnemonic,
};

#[test]
fn entries_decode() {
    assert_eq!(decode("mov|I"), Ok((Mnemonic::Mov, AddressingMode::Immediate)));
    assert_eq!(decode("movb|R"), Ok((Mnemonic::Movb, AddressingMode::Register)));
    assert_eq!(decode("jsr|A"), Ok((Mnemonic::Jsr, AddressingMode::Absolute)));
    assert_eq!(decode("rts|M"), Ok((Mnemonic::Rts, AddressingMode::Implied)));
    assert_eq!(decode("in|I"), Ok((Mnemonic::In, AddressingMode::Immediate)));
    assert_eq!(decode("hlt|M"), Ok((Mnemonic::Hlt, AddressingMode::Implied)));
}

#[test]
fn every_mnemonic_decodes_by_its_name() {
    let all = [
        Mnemonic::Mov,
        Mnemonic::Movb,
        Mnemonic::St,
        Mnemonic::Stb,
        Mnemonic::And,
        Mnemonic::Xor,
        Mnemonic::Xorb,
        Mnemonic::Psh,
        Mnemonic::Pshb,
        Mnemonic::Pop,
        Mnemonic::Add,
        Mnemonic::Addb,
        Mnemonic::Sub,
        Mnemonic::Subb,
        Mnemonic::Cmp,
        Mnemonic::Cmpb,
        Mnemonic::Dec,
        Mnemonic::Decb,
        Mnemonic::Sbl,
        Mnemonic::Sblb,
        Mnemonic::Rol,
        Mnemonic::Clc,
        Mnemonic::Cli,
        Mnemonic::Clv,
        Mnemonic::Sei,
        Mnemonic::Jmp,
        Mnemonic::Jsr,
        Mnemonic::Biz,
        Mnemonic::Bin,
        Mnemonic::Bic,
        Mnemonic::Bio,
        Mnemonic::Bil,
        Mnemonic::Big,
        Mnemonic::Bnz,
        Mnemonic::Bnn,
        Mnemonic::Bnc,
        Mnemonic::Bno,
        Mnemonic::Bnl,
        Mnemonic::Bng,
        Mnemonic::Rts,
        Mnemonic::In,
        Mnemonic::Out,
        Mnemonic::Hlt,
    ];
    assert_eq!(all.len(), hexacore::info::MNEMONICS);
    for (index, mnemonic) in all.iter().enumerate() {
        assert_eq!(Mnemonic::at(index), *mnemonic);
        let entry = format!("{}|A", mnemonic.name());
        assert_eq!(decode(&entry), Ok((*mnemonic, AddressingMode::Absolute)));
    }
}

#[test]
fn only_the_first_two_parts_count() {
    assert_eq!(decode("cmp|R|rest"), Ok((Mnemonic::Cmp, AddressingMode::Register)));
    assert_eq!(decode("cmp|R|"), Ok((Mnemonic::Cmp, AddressingMode::Register)));
}

#[test]
fn malformed_entries() {
    assert_eq!(decode(""), Err(Fault::MalformedEntry));
    assert_eq!(decode("mov"), Err(Fault::MalformedEntry));
    assert_eq!(decode("nothing"), Err(Fault::MalformedEntry));
}

#[test]
fn unknown_names_and_modes() {
    assert_eq!(decode("or|I"), Err(Fault::UnknownMnemonic));
    assert_eq!(decode("MOV|I"), Err(Fault::UnknownMnemonic));
    assert_eq!(decode("|I"), Err(Fault::UnknownMnemonic));
    assert_eq!(decode("movx|I"), Err(Fault::UnknownMnemonic));
    assert_eq!(decode("mo|I"), Err(Fault::UnknownMnemonic));
    assert_eq!(decode("nothing|X"), Err(Fault::UnknownMnemonic));
    assert_eq!(decode("mov|X"), Err(Fault::UnknownMode));
    assert_eq!(decode("mov|"), Err(Fault::UnknownMode));
    assert_eq!(decode("mov||I"), Err(Fault::UnknownMode));
    assert_eq!(decode("mov|II"), Err(Fault::UnknownMode));
    assert_eq!(decode("mov|i"), Err(Fault::UnknownMode));
}

#[test]
fn table_has_an_entry_for_every_opcode() {
    let mut opcodes = HashMap::new();
    opcodes.insert(0u8, String::from("hlt|M"));
    opcodes.insert(59, String::from("mov|I"));
    opcodes.insert(255, String::from("bad"));
    let table = build_table(&opcodes);
    assert_eq!(table.len(), 256);
    assert_eq!(table[0], Ok((Mnemonic::Hlt, AddressingMode::Implied)));
    assert_eq!(table[59], Ok((Mnemonic::Mov, AddressingMode::Immediate)));
    assert_eq!(table[255], Err(Fault::MalformedEntry));
    for opcode in 1..255usize {
        if opcode != 59 {
            assert_eq!(table[opcode], Err(Fault::UnknownOpcode));
        }
    }
}

#[test]
fn texts_compare_by_their_characters() {
    assert!(same_text("", ""));
    assert!(same_text("mov", "mov"));
    assert!(!same_text("mov", "movb"));
    assert!(!same_text("mov", "mob"));
    assert!(same_text("\u{e9}t\u{e9}", "\u{e9}t\u{e9}"));
    assert!(!same_text("\u{e9}", "e"));
}

fn info(name: &str, size: u8, byte: bool) -> InstructionInfo {
    let mut opcode = HashMap::new();
    opcode.insert(String::from("RI"), size.wrapping_mul(3));
    InstructionInfo::new(String::from(name), size, opcode, byte)
}

#[test]
fn instruction_info_is_found_by_name() {
    let insts = vec![info("movb", 2, true), info("mov", 2, false), info("hlt", 0, false)];
    let found = get_instruction_info(&insts, "mov").unwrap();
    assert_eq!(found.name, "mov");
    assert_eq!(found.size, 2);
    assert!(!found.byte);
    assert_eq!(found.opcode.get("RI"), Some(&6));
    let found = get_instruction_info(&insts, "hlt").unwrap();
    assert_eq!(found.size, 0);
    assert!(get_instruction_info(&insts, "jmp").is_none());
    assert!(get_instruction_info(&[], "mov").is_none());
}

#[test]
fn the_first_instruction_of_a_name_is_found() {
    let insts = vec![info("mov", 1, true), info("mov", 2, false)];
    let found = get_instruction_info(&insts, "mov").unwrap();
    assert_eq!(found.size, 1);
    assert!(found.byte);
}

#[test]
fn an_empty_table_knows_no_opcode() {
    let file = InstructionInfoFile::default();
    assert!(file.opcodes.is_empty());
    assert!(file.info.is_empty());
    let table = build_table(&file.opcodes);
    for opcode in 0..256usize {
        assert_eq!(table[opcode], Err(Fault::UnknownOpcode));
    }
}
