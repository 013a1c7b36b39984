//! The opcode table: which instruction and which addressing mode each opcode
//! stands for.

use vstd::prelude::*;
use vstd::string::StrSliceExecFns;
use std::collections::HashMap;
use crate::cpu::model::Fault;
use crate::metadata::AddressingMode;

verus! {

broadcast use vstd::std_specs::hash::group_hash_axioms;

/// What is known of one instruction: its name, the number of its operands, the
/// opcode of each of its forms, and whether it works on bytes.
#[derive(Debug)]
pub struct InstructionInfo {
    pub name: String,
    pub size: u8,
    pub opcode: HashMap<String, u8>,
    pub byte: bool,
}

/// The opcode table as it is read from its file: for each opcode the text
/// `name|mode`, and the instructions one by one.
#[derive(Debug)]
pub struct InstructionInfoFile {
    pub opcodes: HashMap<u8, String>,
    pub info: Vec<InstructionInfo>,
}

impl Default for InstructionInfoFile {
    /// A table without entries.
    fn default() -> (file: Self)
        ensures
            file.opcodes@ == Map::<u8, String>::empty(),
            file.info@.len() == 0,
    {
        InstructionInfoFile { opcodes: HashMap::new(), info: Vec::new() }
    }
}

impl InstructionInfo {
    /// What is known of the instruction `name`.
    pub fn new(name: String, size: u8, opcode: HashMap<String, u8>, byte: bool) -> (info: Self)
        ensures
            info.name == name,
            info.size == size,
            info.opcode == opcode,
            info.byte == byte,
    {
        InstructionInfo { name, size, opcode, byte }
    }

    /// Whether `other` says the same of the same instruction.
    pub open spec fn same_as(&self, other: &InstructionInfo) -> bool {
        &&& self.name@ == other.name@
        &&& self.size == other.size
        &&& self.opcode@ == other.opcode@
        &&& self.byte == other.byte
    }
}

impl Clone for InstructionInfo {
    /// A copy that says the same.
    fn clone(&self) -> (copy: Self)
        ensures
            copy.same_as(self),
    {
        InstructionInfo {
            name: self.name.clone(),
            size: self.size,
            opcode: self.opcode.clone(),
            byte: self.byte,
        }
    }
}

/// Whether two texts are the same.
pub fn same_text(a: &str, b: &str) -> (same: bool)
    ensures
        same == (a@ == b@),
{
    let n = a.unicode_len();
    if n != b.unicode_len() {
        return false;
    }
    let mut i: usize = 0;
    while i < n
        invariant
            i <= n,
            n == a@.len(),
            n == b@.len(),
            forall|j: int| 0 <= j < i ==> a@[j] == b@[j],
        decreases n - i,
    {
        if a.get_char(i) != b.get_char(i) {
            return false;
        }
        i += 1;
    }
    assert(a@ =~= b@);
    true
}

/// The place of the first instruction named `name` among `insts`, or their
/// number if there is none.
pub open spec fn position_of(insts: Seq<InstructionInfo>, name: Seq<char>) -> int
    decreases insts.len(),
{
    if insts.len() == 0 {
        0
    } else if insts[0].name@ == name {
        0
    } else {
        1 + position_of(insts.subrange(1, insts.len() as int), name)
    }
}

/// A copy of the first of `insts` that is named `instruction`.
pub fn get_instruction_info(insts: &[InstructionInfo], instruction: &str) -> (found: Option<
    InstructionInfo,
>)
    ensures
        0 <= position_of(insts@, instruction@) <= insts@.len(),
        position_of(insts@, instruction@) == insts@.len() <==> found is None,
        found matches Some(info) ==> info.same_as(&insts@[position_of(insts@, instruction@)]),
{
    let mut i: usize = 0;
    assert(insts@.subrange(0, insts@.len() as int) =~= insts@);
    while i < insts.len()
        invariant
            i <= insts.len(),
            position_of(insts@, instruction@) == i + position_of(
                insts@.subrange(i as int, insts@.len() as int),
                instruction@,
            ),
        decreases insts.len() - i,
    {
        let ghost rest = insts@.subrange(i as int, insts@.len() as int);
        assert(rest.subrange(1, rest.len() as int) == insts@.subrange(i + 1, insts@.len() as int));
        if same_text(insts[i].name.as_str(), instruction) {
            return Some(insts[i].clone());
        }
        i += 1;
    }
    None
}

/// The instructions of the engine.
#[derive(Debug, Clone, Copy, PartialEq, Eq, Structural)]
pub enum Mnemonic {
    Mov,
    Movb,
    St,
    Stb,
    And,
    Xor,
    Xorb,
    Psh,
    Pshb,
    Pop,
    Add,
    Addb,
    Sub,
    Subb,
    Cmp,
    Cmpb,
    Dec,
    Decb,
    Sbl,
    Sblb,
    Rol,
    Clc,
    Cli,
    Clv,
    Sei,
    Jmp,
    Jsr,
    Biz,
    Bin,
    Bic,
    Bio,
    Bil,
    Big,
    Bnz,
    Bnn,
    Bnc,
    Bno,
    Bnl,
    Bng,
    Rts,
    In,
    Out,
    Hlt,
}

/// How many instructions the engine has.
pub const MNEMONICS: usize = 43;

impl Mnemonic {
    /// The name of the instruction in the opcode table.
    pub open spec fn spec_name(self) -> Seq<char> {
        match self {
            Mnemonic::Mov => "mov"@,
            Mnemonic::Movb => "movb"@,
            Mnemonic::St => "st"@,
            Mnemonic::Stb => "stb"@,
            Mnemonic::And => "and"@,
            Mnemonic::Xor => "xor"@,
            Mnemonic::Xorb => "xorb"@,
            Mnemonic::Psh => "psh"@,
            Mnemonic::Pshb => "pshb"@,
            Mnemonic::Pop => "pop"@,
            Mnemonic::Add => "add"@,
            Mnemonic::Addb => "addb"@,
            Mnemonic::Sub => "sub"@,
            Mnemonic::Subb => "subb"@,
            Mnemonic::Cmp => "cmp"@,
            Mnemonic::Cmpb => "cmpb"@,
            Mnemonic::Dec => "dec"@,
            Mnemonic::Decb => "decb"@,
            Mnemonic::Sbl => "sbl"@,
            Mnemonic::Sblb => "sblb"@,
            Mnemonic::Rol => "rol"@,
            Mnemonic::Clc => "clc"@,
            Mnemonic::Cli => "cli"@,
            Mnemonic::Clv => "clv"@,
            Mnemonic::Sei => "sei"@,
            Mnemonic::Jmp => "jmp"@,
            Mnemonic::Jsr => "jsr"@,
            Mnemonic::Biz => "biz"@,
            Mnemonic::Bin => "bin"@,
            Mnemonic::Bic => "bic"@,
            Mnemonic::Bio => "bio"@,
            Mnemonic::Bil => "bil"@,
            Mnemonic::Big => "big"@,
            Mnemonic::Bnz => "bnz"@,
            Mnemonic::Bnn => "bnn"@,
            Mnemonic::Bnc => "bnc"@,
            Mnemonic::Bno => "bno"@,
            Mnemonic::Bnl => "bnl"@,
            Mnemonic::Bng => "bng"@,
            Mnemonic::Rts => "rts"@,
            Mnemonic::In => "in"@,
            Mnemonic::Out => "out"@,
            Mnemonic::Hlt => "hlt"@,
        }
    }

    /// The name of the instruction in the opcode table.
    pub fn name(self) -> (text: &'static str)
        ensures
            text@ == self.spec_name(),
    {
        match self {
            Mnemonic::Mov => "mov",
            Mnemonic::Movb => "movb",
            Mnemonic::St => "st",
            Mnemonic::Stb => "stb",
            Mnemonic::And => "and",
            Mnemonic::Xor => "xor",
            Mnemonic::Xorb => "xorb",
            Mnemonic::Psh => "psh",
            Mnemonic::Pshb => "pshb",
            Mnemonic::Pop => "pop",
            Mnemonic::Add => "add",
            Mnemonic::Addb => "addb",
            Mnemonic::Sub => "sub",
            Mnemonic::Subb => "subb",
            Mnemonic::Cmp => "cmp",
            Mnemonic::Cmpb => "cmpb",
            Mnemonic::Dec => "dec",
            Mnemonic::Decb => "decb",
            Mnemonic::Sbl => "sbl",
            Mnemonic::Sblb => "sblb",
            Mnemonic::Rol => "rol",
            Mnemonic::Clc => "clc",
            Mnemonic::Cli => "cli",
            Mnemonic::Clv => "clv",
            Mnemonic::Sei => "sei",
            Mnemonic::Jmp => "jmp",
            Mnemonic::Jsr => "jsr",
            Mnemonic::Biz => "biz",
            Mnemonic::Bin => "bin",
            Mnemonic::Bic => "bic",
            Mnemonic::Bio => "bio",
            Mnemonic::Bil => "bil",
            Mnemonic::Big => "big",
            Mnemonic::Bnz => "bnz",
            Mnemonic::Bnn => "bnn",
            Mnemonic::Bnc => "bnc",
            Mnemonic::Bno => "bno",
            Mnemonic::Bnl => "bnl",
            Mnemonic::Bng => "bng",
            Mnemonic::Rts => "rts",
            Mnemonic::In => "in",
            Mnemonic::Out => "out",
            Mnemonic::Hlt => "hlt",
        }
    }

    /// The instruction with number `index`, in the order of the declaration.
    pub open spec fn spec_at(index: int) -> Mnemonic {
        Self::spec_all()[index]
    }

    /// All instructions, in the order of the declaration.
    pub open spec fn spec_all() -> Seq<Mnemonic> {
        seq![
        Mnemonic::Mov,
        Mnemonic::Movb,
        Mnemonic::St,
        Mnemonic::Stb,
        Mnemonic::And,
        Mnemonic::Xor,
        Mnemonic::Xorb,
        Mnemonic::Psh,
        Mnemonic::Pshb,
        Mnemonic::Pop,
        Mnemonic::Add,
        Mnemonic::Addb,
        Mnemonic::Sub,
        Mnemonic::Subb,
        Mnemonic::Cmp,
        Mnemonic::Cmpb,
        Mnemonic::Dec,
        Mnemonic::Decb,
        Mnemonic::Sbl,
        Mnemonic::Sblb,
        Mnemonic::Rol,
        Mnemonic::Clc,
        Mnemonic::Cli,
        Mnemonic::Clv,
        Mnemonic::Sei,
        Mnemonic::Jmp,
        Mnemonic::Jsr,
        Mnemonic::Biz,
        Mnemonic::Bin,
        Mnemonic::Bic,
        Mnemonic::Bio,
        Mnemonic::Bil,
        Mnemonic::Big,
        Mnemonic::Bnz,
        Mnemonic::Bnn,
        Mnemonic::Bnc,
        Mnemonic::Bno,
        Mnemonic::Bnl,
        Mnemonic::Bng,
        Mnemonic::Rts,
        Mnemonic::In,
        Mnemonic::Out,
        Mnemonic::Hlt,
        ]
    }

    /// The instruction with number `index`, in the order of the declaration.
    pub fn at(index: usize) -> (m: Mnemonic)
        requires
            index < MNEMONICS,
        ensures
            m == Self::spec_at(index as int),
    {
        let all = [
        Mnemonic::Mov,
        Mnemonic::Movb,
        Mnemonic::St,
        Mnemonic::Stb,
        Mnemonic::And,
        Mnemonic::Xor,
        Mnemonic::Xorb,
        Mnemonic::Psh,
        Mnemonic::Pshb,
        Mnemonic::Pop,
        Mnemonic::Add,
        Mnemonic::Addb,
        Mnemonic::Sub,
        Mnemonic::Subb,
        Mnemonic::Cmp,
        Mnemonic::Cmpb,
        Mnemonic::Dec,
        Mnemonic::Decb,
        Mnemonic::Sbl,
        Mnemonic::Sblb,
        Mnemonic::Rol,
        Mnemonic::Clc,
        Mnemonic::Cli,
        Mnemonic::Clv,
        Mnemonic::Sei,
        Mnemonic::Jmp,
        Mnemonic::Jsr,
        Mnemonic::Biz,
        Mnemonic::Bin,
        Mnemonic::Bic,
        Mnemonic::Bio,
        Mnemonic::Bil,
        Mnemonic::Big,
        Mnemonic::Bnz,
        Mnemonic::Bnn,
        Mnemonic::Bnc,
        Mnemonic::Bno,
        Mnemonic::Bnl,
        Mnemonic::Bng,
        Mnemonic::Rts,
        Mnemonic::In,
        Mnemonic::Out,
        Mnemonic::Hlt,
        ];
        all[index]
    }
}

/// The first instruction, from number `from` on, whose name is `name`.
pub open spec fn mnemonic_from(name: Seq<char>, from: int) -> Option<Mnemonic>
    decreases MNEMONICS - from,
{
    if from < 0 || from >= MNEMONICS {
        None
    } else if Mnemonic::spec_at(from).spec_name() == name {
        Some(Mnemonic::spec_at(from))
    } else {
        mnemonic_from(name, from + 1)
    }
}

/// The instruction whose name is `name`.
pub open spec fn mnemonic_named(name: Seq<char>) -> Option<Mnemonic> {
    mnemonic_from(name, 0)
}

/// The addressing mode that a tag of the opcode table stands for.
pub open spec fn mode_tagged(tag: Seq<char>) -> Option<AddressingMode> {
    if tag == seq!['M'] {
        Some(AddressingMode::Implied)
    } else if tag == seq!['I'] {
        Some(AddressingMode::Immediate)
    } else if tag == seq!['R'] {
        Some(AddressingMode::Register)
    } else if tag == seq!['A'] {
        Some(AddressingMode::Absolute)
    } else {
        None
    }
}

/// The place of the first `|` in `text` at or behind `from`, or the length of
/// `text` if there is none.
pub open spec fn find_bar(text: Seq<char>, from: int) -> int
    decreases text.len() - from,
{
    if from < 0 || from >= text.len() {
        text.len() as int
    } else if text[from] == '|' {
        from
    } else {
        find_bar(text, from + 1)
    }
}

/// What an opcode stands for.
pub type Decoded = Result<(Mnemonic, AddressingMode), Fault>;

/// What an entry of the opcode table says: the text before the first `|` names
/// the instruction, the text between the first and the second `|` (or the end)
/// the addressing mode. An entry without `|` is malformed; then comes an
/// unknown name, then an unknown mode.
pub open spec fn decode_entry(text: Seq<char>) -> Decoded {
    let first = find_bar(text, 0);
    if first >= text.len() {
        Err(Fault::MalformedEntry)
    } else {
        let second = find_bar(text, first + 1);
        match mnemonic_named(text.subrange(0, first)) {
            None => Err(Fault::UnknownMnemonic),
            Some(mnemonic) => match mode_tagged(text.subrange(first + 1, second)) {
                None => Err(Fault::UnknownMode),
                Some(mode) => Ok((mnemonic, mode)),
            },
        }
    }
}

/// What the opcode `opcode` stands for in `opcodes`.
pub open spec fn decode_opcode(opcodes: Map<u8, String>, opcode: u8) -> Decoded {
    if opcodes.contains_key(opcode) {
        decode_entry(opcodes[opcode]@)
    } else {
        Err(Fault::UnknownOpcode)
    }
}

/// What an opcode table can say against an opcode: that it is unknown, that
/// its entry is malformed, or that the entry names no instruction or no
/// addressing mode. No other fault comes out of a table.
pub proof fn lemma_table_faults(opcodes: Map<u8, String>, opcode: u8)
    ensures
        decode_opcode(opcodes, opcode) matches Err(fault) ==> fault == Fault::UnknownOpcode || fault
            == Fault::MalformedEntry || fault == Fault::UnknownMnemonic || fault
            == Fault::UnknownMode,
{
}

/// The whole table: what each of the 256 opcodes stands for.
pub open spec fn decode_table(opcodes: Map<u8, String>) -> Seq<Decoded> {
    Seq::new(256, |opcode: int| decode_opcode(opcodes, opcode as u8))
}

/// Finds the first `|` in `text` at or behind `from`.
fn bar_from(text: &str, from: usize) -> (at: usize)
    requires
        from <= text@.len(),
    ensures
        at == find_bar(text@, from as int),
        from <= at <= text@.len(),
{
    let n = text.unicode_len();
    let mut i = from;
    while i < n
        invariant
            from <= i <= n,
            n == text@.len(),
            find_bar(text@, from as int) == find_bar(text@, i as int),
        decreases n - i,
    {
        if text.get_char(i) == '|' {
            return i;
        }
        i += 1;
    }
    i
}

/// Whether the part `from .. to` of `text` is the text `word`.
fn part_is(text: &str, from: usize, to: usize, word: &str) -> (same: bool)
    requires
        from <= to <= text@.len(),
    ensures
        same == (text@.subrange(from as int, to as int) == word@),
{
    let n = word.unicode_len();
    if n != to - from {
        return false;
    }
    let ghost part = text@.subrange(from as int, to as int);
    let mut i: usize = 0;
    while i < n
        invariant
            i <= n,
            n == word@.len(),
            n == to - from,
            from <= to <= text@.len(),
            part == text@.subrange(from as int, to as int),
            forall|j: int| 0 <= j < i ==> part[j] == word@[j],
        decreases n - i,
    {
        if text.get_char(from + i) != word.get_char(i) {
            return false;
        }
        i += 1;
    }
    assert(part =~= word@);
    true
}

/// Finds the instruction that the part `from .. to` of `text` names.
fn mnemonic_of(text: &str, from: usize, to: usize) -> (found: Option<Mnemonic>)
    requires
        from <= to <= text@.len(),
    ensures
        found == mnemonic_named(text@.subrange(from as int, to as int)),
{
    let ghost name = text@.subrange(from as int, to as int);
    let mut i: usize = 0;
    while i < MNEMONICS
        invariant
            i <= MNEMONICS,
            from <= to <= text@.len(),
            name == text@.subrange(from as int, to as int),
            mnemonic_named(name) == mnemonic_from(name, i as int),
        decreases MNEMONICS - i,
    {
        let candidate = Mnemonic::at(i);
        if part_is(text, from, to, candidate.name()) {
            return Some(candidate);
        }
        i += 1;
    }
    None
}

/// Finds the addressing mode that the part `from .. to` of `text` names.
fn mode_of(text: &str, from: usize, to: usize) -> (found: Option<AddressingMode>)
    requires
        from <= to <= text@.len(),
    ensures
        found == mode_tagged(text@.subrange(from as int, to as int)),
{
    let ghost tag = text@.subrange(from as int, to as int);
    if to - from != 1 {
        assert(seq!['M'].len() == 1 && seq!['I'].len() == 1 && seq!['R'].len() == 1 && seq!['A'].len()
            == 1);
        return None;
    }
    assert(tag =~= seq![text@[from as int]]);
    let c = text.get_char(from);
    assert(seq![c] == seq!['M'] <==> c == 'M') by {
        assert(seq!['M'][0] == 'M');
    }
    assert(seq![c] == seq!['I'] <==> c == 'I') by {
        assert(seq!['I'][0] == 'I');
    }
    assert(seq![c] == seq!['R'] <==> c == 'R') by {
        assert(seq!['R'][0] == 'R');
    }
    assert(seq![c] == seq!['A'] <==> c == 'A') by {
        assert(seq!['A'][0] == 'A');
    }
    if c == 'M' {
        Some(AddressingMode::Implied)
    } else if c == 'I' {
        Some(AddressingMode::Immediate)
    } else if c == 'R' {
        Some(AddressingMode::Register)
    } else if c == 'A' {
        Some(AddressingMode::Absolute)
    } else {
        None
    }
}

/// Reads one entry of the opcode table.
pub fn decode(entry: &str) -> (decoded: Decoded)
    ensures
        decoded == decode_entry(entry@),
{
    let n = entry.unicode_len();
    let first = bar_from(entry, 0);
    if first >= n {
        return Err(Fault::MalformedEntry);
    }
    let second = bar_from(entry, first + 1);
    match mnemonic_of(entry, 0, first) {
        None => Err(Fault::UnknownMnemonic),
        Some(mnemonic) => match mode_of(entry, first + 1, second) {
            None => Err(Fault::UnknownMode),
            Some(mode) => Ok((mnemonic, mode)),
        },
    }
}

/// Reads the whole opcode table.
pub fn build_table(opcodes: &HashMap<u8, String>) -> (table: Vec<Decoded>)
    ensures
        table@ == decode_table(opcodes@),
{
    let mut table: Vec<Decoded> = Vec::new();
    let mut opcode: usize = 0;
    while opcode < 256
        invariant
            opcode <= 256,
            table@.len() == opcode,
            forall|i: int| 0 <= i < opcode ==> table@[i] == decode_opcode(opcodes@, i as u8),
        decreases 256 - opcode,
    {
        let key = opcode as u8;
        let decoded = match opcodes.get(&key) {
            Some(text) => decode(text.as_str()),
            None => Err(Fault::UnknownOpcode),
        };
        table.push(decoded);
        opcode += 1;
    }
    table
}

} // verus!
