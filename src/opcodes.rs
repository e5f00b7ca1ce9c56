use vstd::prelude::*;

use vstd::string::StrSliceExecFns;

use crate::error::CpuError;
use crate::registers::{FlagNames, RegisterNames};

verus! {

/// Mnemonics of the unprefixed and the 0xCB-prefixed opcode spaces.
#[derive(Copy, Clone, Debug, PartialEq, Eq, Structural)]
pub enum Instruction {
    NOP,
    RRCA,
    INC,
    DEC,
    RLCA,
    RLA,
    RRA,
    PUSH,
    POP,
    ADD,
    ADC,
    SUB,
    SBC,
    AND,
    OR,
    XOR,
    LD,
    LDH,
    CP,
    DAA,
    CPL,
    SCF,
    CCF,
    JP,
    JR,
    CALL,
    RET,
    RETI,
    RST,
    DI,
    EI,
    HALT,
    PREFIX,
    RLC,
    RRC,
    RL,
    RR,
    SLA,
    SRA,
    SRL,
    SWAP,
    BIT,
    RES,
    SET,
}

impl Instruction {
    /// The branch mnemonics, which take a condition as their first operand.
    pub open spec fn is_branch(self) -> bool {
        self == Instruction::JP || self == Instruction::JR || self == Instruction::CALL || self
            == Instruction::RET
    }

    pub fn is_branch_mnemonic(&self) -> (r: bool)
        ensures
            r == self.is_branch(),
    {
        match self {
            Instruction::JP | Instruction::JR | Instruction::CALL | Instruction::RET => true,
            _ => false,
        }
    }
}

/// The names an operand descriptor of the opcode table can carry.
#[derive(Copy, Clone, Debug, PartialEq, Eq, Structural)]
pub enum OperandName {
    A,
    B,
    C,
    D,
    E,
    H,
    L,
    AF,
    BC,
    DE,
    HL,
    SP,
    /// `(HL+)`: the address in HL, which then rises by one.
    HLI,
    /// `(HL-)`: the address in HL, which then drops by one.
    HLD,
    /// An eight-bit immediate value.
    N8,
    /// A sixteen-bit immediate value.
    N16,
    /// An eight-bit offset into the 0xFF00 page.
    A8,
    /// A sixteen-bit address.
    A16,
    /// A signed eight-bit displacement.
    E8,
    Z,
    NZ,
    NC,
    /// A bit index of the CB-prefixed bit instructions.
    Bit(u8),
    /// A restart vector.
    Vector(u8),
}

/// One operand of an opcode-table entry: its name, and whether it is used as
/// is (`true`) or as an address (`false`).
#[derive(Copy, Clone, Debug, PartialEq, Eq, Structural)]
pub struct OperandDescriptor {
    pub name: OperandName,
    pub immediate: bool,
}

/// An opcode-table entry: the mnemonic and up to two operand descriptors.
#[derive(Copy, Clone, Debug, PartialEq, Eq, Structural)]
pub struct OpcodeEntry {
    pub mnemonic: Instruction,
    pub first: Option<OperandDescriptor>,
    pub second: Option<OperandDescriptor>,
}

pub open spec fn imm(name: OperandName) -> OperandDescriptor {
    OperandDescriptor { name, immediate: true }
}

pub open spec fn ind(name: OperandName) -> OperandDescriptor {
    OperandDescriptor { name, immediate: false }
}

pub open spec fn entry0(m: Instruction) -> Option<OpcodeEntry> {
    Some(OpcodeEntry { mnemonic: m, first: None, second: None })
}

pub open spec fn entry1(m: Instruction, a: OperandDescriptor) -> Option<OpcodeEntry> {
    Some(OpcodeEntry { mnemonic: m, first: Some(a), second: None })
}

pub open spec fn entry2(m: Instruction, a: OperandDescriptor, b: OperandDescriptor) -> Option<
    OpcodeEntry,
> {
    Some(OpcodeEntry { mnemonic: m, first: Some(a), second: Some(b) })
}

/// The eight-bit operand selected by a three-bit field: B, C, D, E, H, L,
/// (HL), A.
pub open spec fn spec_r8(i: u8) -> OperandDescriptor {
    if i == 0 {
        imm(OperandName::B)
    } else if i == 1 {
        imm(OperandName::C)
    } else if i == 2 {
        imm(OperandName::D)
    } else if i == 3 {
        imm(OperandName::E)
    } else if i == 4 {
        imm(OperandName::H)
    } else if i == 5 {
        imm(OperandName::L)
    } else if i == 6 {
        ind(OperandName::HL)
    } else {
        imm(OperandName::A)
    }
}

/// The register pair selected by a two-bit field: BC, DE, HL, SP.
pub open spec fn spec_rp(p: u8) -> OperandName {
    if p == 0 {
        OperandName::BC
    } else if p == 1 {
        OperandName::DE
    } else if p == 2 {
        OperandName::HL
    } else {
        OperandName::SP
    }
}

/// The register pair of PUSH and POP: BC, DE, HL, AF.
pub open spec fn spec_rp2(p: u8) -> OperandName {
    if p == 3 {
        OperandName::AF
    } else {
        spec_rp(p)
    }
}

/// The condition selected by a two-bit field: NZ, Z, NC, C.
pub open spec fn spec_cc(y: u8) -> OperandName {
    if y == 0 {
        OperandName::NZ
    } else if y == 1 {
        OperandName::Z
    } else if y == 2 {
        OperandName::NC
    } else {
        OperandName::C
    }
}

/// The ALU mnemonic selected by a three-bit field.
pub open spec fn spec_alu(y: u8) -> Instruction {
    if y == 0 {
        Instruction::ADD
    } else if y == 1 {
        Instruction::ADC
    } else if y == 2 {
        Instruction::SUB
    } else if y == 3 {
        Instruction::SBC
    } else if y == 4 {
        Instruction::AND
    } else if y == 5 {
        Instruction::XOR
    } else if y == 6 {
        Instruction::OR
    } else {
        Instruction::CP
    }
}

/// The rotate or shift mnemonic of the CB space selected by a three-bit field.
pub open spec fn spec_rot(y: u8) -> Instruction {
    if y == 0 {
        Instruction::RLC
    } else if y == 1 {
        Instruction::RRC
    } else if y == 2 {
        Instruction::RL
    } else if y == 3 {
        Instruction::RR
    } else if y == 4 {
        Instruction::SLA
    } else if y == 5 {
        Instruction::SRA
    } else if y == 6 {
        Instruction::SWAP
    } else {
        Instruction::SRL
    }
}

/// The accumulator-only instructions selected by a three-bit field.
pub open spec fn spec_acc(y: u8) -> Instruction {
    if y == 0 {
        Instruction::RLCA
    } else if y == 1 {
        Instruction::RRCA
    } else if y == 2 {
        Instruction::RLA
    } else if y == 3 {
        Instruction::RRA
    } else if y == 4 {
        Instruction::DAA
    } else if y == 5 {
        Instruction::CPL
    } else if y == 6 {
        Instruction::SCF
    } else {
        Instruction::CCF
    }
}

/// Opcodes 0x00-0x3F.
pub open spec fn spec_block0(y: u8, z: u8) -> Option<OpcodeEntry> {
    let p = y / 2;
    let q = y % 2;
    if z == 0 {
        if y == 0 {
            entry0(Instruction::NOP)
        } else if y == 1 {
            entry2(Instruction::LD, ind(OperandName::A16), imm(OperandName::SP))
        } else if y == 2 {
            None
        } else if y == 3 {
            entry1(Instruction::JR, imm(OperandName::E8))
        } else {
            entry2(Instruction::JR, imm(spec_cc((y - 4) as u8)), imm(OperandName::E8))
        }
    } else if z == 1 {
        if q == 0 {
            entry2(Instruction::LD, imm(spec_rp(p)), imm(OperandName::N16))
        } else {
            entry2(Instruction::ADD, imm(OperandName::HL), imm(spec_rp(p)))
        }
    } else if z == 2 {
        let mem = if p == 0 {
            ind(OperandName::BC)
        } else if p == 1 {
            ind(OperandName::DE)
        } else if p == 2 {
            ind(OperandName::HLI)
        } else {
            ind(OperandName::HLD)
        };
        if q == 0 {
            entry2(Instruction::LD, mem, imm(OperandName::A))
        } else {
            entry2(Instruction::LD, imm(OperandName::A), mem)
        }
    } else if z == 3 {
        if q == 0 {
            entry1(Instruction::INC, imm(spec_rp(p)))
        } else {
            entry1(Instruction::DEC, imm(spec_rp(p)))
        }
    } else if z == 4 {
        entry1(Instruction::INC, spec_r8(y))
    } else if z == 5 {
        entry1(Instruction::DEC, spec_r8(y))
    } else if z == 6 {
        entry2(Instruction::LD, spec_r8(y), imm(OperandName::N8))
    } else {
        entry0(spec_acc(y))
    }
}

/// Opcodes 0xC0-0xFF.
pub open spec fn spec_block3(y: u8, z: u8) -> Option<OpcodeEntry> {
    let p = y / 2;
    let q = y % 2;
    if z == 0 {
        if y < 4 {
            entry1(Instruction::RET, imm(spec_cc(y)))
        } else if y == 4 {
            entry2(Instruction::LDH, ind(OperandName::A8), imm(OperandName::A))
        } else if y == 6 {
            entry2(Instruction::LDH, imm(OperandName::A), ind(OperandName::A8))
        } else {
            None
        }
    } else if z == 1 {
        if q == 0 {
            entry1(Instruction::POP, imm(spec_rp2(p)))
        } else if p == 0 {
            entry0(Instruction::RET)
        } else if p == 1 {
            entry0(Instruction::RETI)
        } else if p == 2 {
            entry1(Instruction::JP, imm(OperandName::HL))
        } else {
            entry2(Instruction::LD, imm(OperandName::SP), imm(OperandName::HL))
        }
    } else if z == 2 {
        if y < 4 {
            entry2(Instruction::JP, imm(spec_cc(y)), imm(OperandName::A16))
        } else if y == 4 {
            entry2(Instruction::LDH, ind(OperandName::C), imm(OperandName::A))
        } else if y == 5 {
            entry2(Instruction::LD, ind(OperandName::A16), imm(OperandName::A))
        } else if y == 6 {
            entry2(Instruction::LDH, imm(OperandName::A), ind(OperandName::C))
        } else {
            entry2(Instruction::LD, imm(OperandName::A), ind(OperandName::A16))
        }
    } else if z == 3 {
        if y == 0 {
            entry1(Instruction::JP, imm(OperandName::A16))
        } else if y == 1 {
            entry0(Instruction::PREFIX)
        } else if y == 6 {
            entry0(Instruction::DI)
        } else if y == 7 {
            entry0(Instruction::EI)
        } else {
            None
        }
    } else if z == 4 {
        if y < 4 {
            entry2(Instruction::CALL, imm(spec_cc(y)), imm(OperandName::A16))
        } else {
            None
        }
    } else if z == 5 {
        if q == 0 {
            entry1(Instruction::PUSH, imm(spec_rp2(p)))
        } else if p == 0 {
            entry1(Instruction::CALL, imm(OperandName::A16))
        } else {
            None
        }
    } else if z == 6 {
        entry2(spec_alu(y), imm(OperandName::A), imm(OperandName::N8))
    } else {
        entry1(Instruction::RST, imm(OperandName::Vector((y * 8) as u8)))
    }
}

/// The unprefixed opcode table. Opcodes without an entry: STOP (0x10),
/// ADD SP,e8 (0xE8), LD HL,SP+e8 (0xF8) and the eleven unused opcodes.
pub open spec fn unprefixed_entry(op: u8) -> Option<OpcodeEntry> {
    let x = op / 64;
    let y = ((op / 8) % 8) as u8;
    let z = (op % 8) as u8;
    if x == 0 {
        spec_block0(y, z)
    } else if x == 1 {
        if y == 6 && z == 6 {
            entry0(Instruction::HALT)
        } else {
            entry2(Instruction::LD, spec_r8(y), spec_r8(z))
        }
    } else if x == 2 {
        entry2(spec_alu(y), imm(OperandName::A), spec_r8(z))
    } else {
        spec_block3(y, z)
    }
}

/// The 0xCB-prefixed opcode table; every byte has an entry.
pub open spec fn prefixed_entry(op: u8) -> OpcodeEntry {
    let x = op / 64;
    let y = ((op / 8) % 8) as u8;
    let z = (op % 8) as u8;
    if x == 0 {
        OpcodeEntry { mnemonic: spec_rot(y), first: Some(spec_r8(z)), second: None }
    } else {
        let m = if x == 1 {
            Instruction::BIT
        } else if x == 2 {
            Instruction::RES
        } else {
            Instruction::SET
        };
        OpcodeEntry { mnemonic: m, first: Some(imm(OperandName::Bit(y))), second: Some(spec_r8(z)) }
    }
}

fn d_imm(name: OperandName) -> (r: OperandDescriptor)
    ensures
        r == imm(name),
{
    OperandDescriptor { name, immediate: true }
}

fn d_ind(name: OperandName) -> (r: OperandDescriptor)
    ensures
        r == ind(name),
{
    OperandDescriptor { name, immediate: false }
}

fn e0(m: Instruction) -> (r: Option<OpcodeEntry>)
    ensures
        r == entry0(m),
{
    Some(OpcodeEntry { mnemonic: m, first: None, second: None })
}

fn e1(m: Instruction, a: OperandDescriptor) -> (r: Option<OpcodeEntry>)
    ensures
        r == entry1(m, a),
{
    Some(OpcodeEntry { mnemonic: m, first: Some(a), second: None })
}

fn e2(m: Instruction, a: OperandDescriptor, b: OperandDescriptor) -> (r: Option<OpcodeEntry>)
    ensures
        r == entry2(m, a, b),
{
    Some(OpcodeEntry { mnemonic: m, first: Some(a), second: Some(b) })
}

fn r8(i: u8) -> (r: OperandDescriptor)
    ensures
        r == spec_r8(i),
{
    match i {
        0 => d_imm(OperandName::B),
        1 => d_imm(OperandName::C),
        2 => d_imm(OperandName::D),
        3 => d_imm(OperandName::E),
        4 => d_imm(OperandName::H),
        5 => d_imm(OperandName::L),
        6 => d_ind(OperandName::HL),
        _ => d_imm(OperandName::A),
    }
}

fn rp(p: u8) -> (r: OperandName)
    ensures
        r == spec_rp(p),
{
    match p {
        0 => OperandName::BC,
        1 => OperandName::DE,
        2 => OperandName::HL,
        _ => OperandName::SP,
    }
}

fn rp2(p: u8) -> (r: OperandName)
    ensures
        r == spec_rp2(p),
{
    if p == 3 {
        OperandName::AF
    } else {
        rp(p)
    }
}

fn cc(y: u8) -> (r: OperandName)
    ensures
        r == spec_cc(y),
{
    match y {
        0 => OperandName::NZ,
        1 => OperandName::Z,
        2 => OperandName::NC,
        _ => OperandName::C,
    }
}

fn alu(y: u8) -> (r: Instruction)
    ensures
        r == spec_alu(y),
{
    match y {
        0 => Instruction::ADD,
        1 => Instruction::ADC,
        2 => Instruction::SUB,
        3 => Instruction::SBC,
        4 => Instruction::AND,
        5 => Instruction::XOR,
        6 => Instruction::OR,
        _ => Instruction::CP,
    }
}

fn rot(y: u8) -> (r: Instruction)
    ensures
        r == spec_rot(y),
{
    match y {
        0 => Instruction::RLC,
        1 => Instruction::RRC,
        2 => Instruction::RL,
        3 => Instruction::RR,
        4 => Instruction::SLA,
        5 => Instruction::SRA,
        6 => Instruction::SWAP,
        _ => Instruction::SRL,
    }
}

fn acc(y: u8) -> (r: Instruction)
    ensures
        r == spec_acc(y),
{
    match y {
        0 => Instruction::RLCA,
        1 => Instruction::RRCA,
        2 => Instruction::RLA,
        3 => Instruction::RRA,
        4 => Instruction::DAA,
        5 => Instruction::CPL,
        6 => Instruction::SCF,
        _ => Instruction::CCF,
    }
}

fn block0(y: u8, z: u8) -> (r: Option<OpcodeEntry>)
    requires
        y < 8,
    ensures
        r == spec_block0(y, z),
{
    let p = y / 2;
    let q = y % 2;
    if z == 0 {
        if y == 0 {
            e0(Instruction::NOP)
        } else if y == 1 {
            e2(Instruction::LD, d_ind(OperandName::A16), d_imm(OperandName::SP))
        } else if y == 2 {
            None
        } else if y == 3 {
            e1(Instruction::JR, d_imm(OperandName::E8))
        } else {
            e2(Instruction::JR, d_imm(cc(y - 4)), d_imm(OperandName::E8))
        }
    } else if z == 1 {
        if q == 0 {
            e2(Instruction::LD, d_imm(rp(p)), d_imm(OperandName::N16))
        } else {
            e2(Instruction::ADD, d_imm(OperandName::HL), d_imm(rp(p)))
        }
    } else if z == 2 {
        let mem = if p == 0 {
            d_ind(OperandName::BC)
        } else if p == 1 {
            d_ind(OperandName::DE)
        } else if p == 2 {
            d_ind(OperandName::HLI)
        } else {
            d_ind(OperandName::HLD)
        };
        if q == 0 {
            e2(Instruction::LD, mem, d_imm(OperandName::A))
        } else {
            e2(Instruction::LD, d_imm(OperandName::A), mem)
        }
    } else if z == 3 {
        if q == 0 {
            e1(Instruction::INC, d_imm(rp(p)))
        } else {
            e1(Instruction::DEC, d_imm(rp(p)))
        }
    } else if z == 4 {
        e1(Instruction::INC, r8(y))
    } else if z == 5 {
        e1(Instruction::DEC, r8(y))
    } else if z == 6 {
        e2(Instruction::LD, r8(y), d_imm(OperandName::N8))
    } else {
        e0(acc(y))
    }
}

fn block3(y: u8, z: u8) -> (r: Option<OpcodeEntry>)
    requires
        y < 8,
    ensures
        r == spec_block3(y, z),
{
    let p = y / 2;
    let q = y % 2;
    if z == 0 {
        if y < 4 {
            e1(Instruction::RET, d_imm(cc(y)))
        } else if y == 4 {
            e2(Instruction::LDH, d_ind(OperandName::A8), d_imm(OperandName::A))
        } else if y == 6 {
            e2(Instruction::LDH, d_imm(OperandName::A), d_ind(OperandName::A8))
        } else {
            None
        }
    } else if z == 1 {
        if q == 0 {
            e1(Instruction::POP, d_imm(rp2(p)))
        } else if p == 0 {
            e0(Instruction::RET)
        } else if p == 1 {
            e0(Instruction::RETI)
        } else if p == 2 {
            e1(Instruction::JP, d_imm(OperandName::HL))
        } else {
            e2(Instruction::LD, d_imm(OperandName::SP), d_imm(OperandName::HL))
        }
    } else if z == 2 {
        if y < 4 {
            e2(Instruction::JP, d_imm(cc(y)), d_imm(OperandName::A16))
        } else if y == 4 {
            e2(Instruction::LDH, d_ind(OperandName::C), d_imm(OperandName::A))
        } else if y == 5 {
            e2(Instruction::LD, d_ind(OperandName::A16), d_imm(OperandName::A))
        } else if y == 6 {
            e2(Instruction::LDH, d_imm(OperandName::A), d_ind(OperandName::C))
        } else {
            e2(Instruction::LD, d_imm(OperandName::A), d_ind(OperandName::A16))
        }
    } else if z == 3 {
        if y == 0 {
            e1(Instruction::JP, d_imm(OperandName::A16))
        } else if y == 1 {
            e0(Instruction::PREFIX)
        } else if y == 6 {
            e0(Instruction::DI)
        } else if y == 7 {
            e0(Instruction::EI)
        } else {
            None
        }
    } else if z == 4 {
        if y < 4 {
            e2(Instruction::CALL, d_imm(cc(y)), d_imm(OperandName::A16))
        } else {
            None
        }
    } else if z == 5 {
        if q == 0 {
            e1(Instruction::PUSH, d_imm(rp2(p)))
        } else if p == 0 {
            e1(Instruction::CALL, d_imm(OperandName::A16))
        } else {
            None
        }
    } else if z == 6 {
        e2(alu(y), d_imm(OperandName::A), d_imm(OperandName::N8))
    } else {
        e1(Instruction::RST, d_imm(OperandName::Vector(y * 8)))
    }
}

/// Looks an opcode byte up in the unprefixed table.
pub fn decode_unprefixed(op: u8) -> (r: Option<OpcodeEntry>)
    ensures
        r == unprefixed_entry(op),
{
    let x = op / 64;
    let y = (op / 8) % 8;
    let z = op % 8;
    if x == 0 {
        block0(y, z)
    } else if x == 1 {
        if y == 6 && z == 6 {
            e0(Instruction::HALT)
        } else {
            e2(Instruction::LD, r8(y), r8(z))
        }
    } else if x == 2 {
        e2(alu(y), d_imm(OperandName::A), r8(z))
    } else {
        block3(y, z)
    }
}

/// Looks an opcode byte up in the CB-prefixed table.
pub fn decode_prefixed(op: u8) -> (r: OpcodeEntry)
    ensures
        r == prefixed_entry(op),
{
    let x = op / 64;
    let y = (op / 8) % 8;
    let z = op % 8;
    if x == 0 {
        OpcodeEntry { mnemonic: rot(y), first: Some(r8(z)), second: None }
    } else {
        let m = if x == 1 {
            Instruction::BIT
        } else if x == 2 {
            Instruction::RES
        } else {
            Instruction::SET
        };
        OpcodeEntry { mnemonic: m, first: Some(d_imm(OperandName::Bit(y))), second: Some(r8(z)) }
    }
}

/// Entries of the opcode map as the Game Boy's documentation lists them:
/// LD BC,n16 at 0x01, JR NZ,e8 at 0x20, HALT at 0x76, the prefix at 0xCB, the
/// LDH (C) forms at 0xE2 and 0xF2, no entry for STOP, 0xD3, 0xE8 or 0xF8,
/// and BIT 7,H at CB 0x7C, among others.
pub proof fn lemma_documented_entries()
    ensures
        unprefixed_entry(0x00) == Some(OpcodeEntry { mnemonic: Instruction::NOP, first: None, second: None }),
        unprefixed_entry(0x01) == Some(OpcodeEntry { mnemonic: Instruction::LD, first: Some(OperandDescriptor { name: OperandName::BC, immediate: true }), second: Some(OperandDescriptor { name: OperandName::N16, immediate: true }) }),
        unprefixed_entry(0x08) == Some(OpcodeEntry { mnemonic: Instruction::LD, first: Some(OperandDescriptor { name: OperandName::A16, immediate: false }), second: Some(OperandDescriptor { name: OperandName::SP, immediate: true }) }),
        unprefixed_entry(0x20) == Some(OpcodeEntry { mnemonic: Instruction::JR, first: Some(OperandDescriptor { name: OperandName::NZ, immediate: true }), second: Some(OperandDescriptor { name: OperandName::E8, immediate: true }) }),
        unprefixed_entry(0x22) == Some(OpcodeEntry { mnemonic: Instruction::LD, first: Some(OperandDescriptor { name: OperandName::HLI, immediate: false }), second: Some(OperandDescriptor { name: OperandName::A, immediate: true }) }),
        unprefixed_entry(0x3C) == Some(OpcodeEntry { mnemonic: Instruction::INC, first: Some(OperandDescriptor { name: OperandName::A, immediate: true }), second: None }),
        unprefixed_entry(0x3E) == Some(OpcodeEntry { mnemonic: Instruction::LD, first: Some(OperandDescriptor { name: OperandName::A, immediate: true }), second: Some(OperandDescriptor { name: OperandName::N8, immediate: true }) }),
        unprefixed_entry(0x76) == Some(OpcodeEntry { mnemonic: Instruction::HALT, first: None, second: None }),
        unprefixed_entry(0x7E) == Some(OpcodeEntry { mnemonic: Instruction::LD, first: Some(OperandDescriptor { name: OperandName::A, immediate: true }), second: Some(OperandDescriptor { name: OperandName::HL, immediate: false }) }),
        unprefixed_entry(0x80) == Some(OpcodeEntry { mnemonic: Instruction::ADD, first: Some(OperandDescriptor { name: OperandName::A, immediate: true }), second: Some(OperandDescriptor { name: OperandName::B, immediate: true }) }),
        unprefixed_entry(0xC9) == Some(OpcodeEntry { mnemonic: Instruction::RET, first: None, second: None }),
        unprefixed_entry(0xCB) == Some(OpcodeEntry { mnemonic: Instruction::PREFIX, first: None, second: None }),
        unprefixed_entry(0xCD) == Some(OpcodeEntry { mnemonic: Instruction::CALL, first: Some(OperandDescriptor { name: OperandName::A16, immediate: true }), second: None }),
        unprefixed_entry(0xE0) == Some(OpcodeEntry { mnemonic: Instruction::LDH, first: Some(OperandDescriptor { name: OperandName::A8, immediate: false }), second: Some(OperandDescriptor { name: OperandName::A, immediate: true }) }),
        unprefixed_entry(0xE2) == Some(OpcodeEntry { mnemonic: Instruction::LDH, first: Some(OperandDescriptor { name: OperandName::C, immediate: false }), second: Some(OperandDescriptor { name: OperandName::A, immediate: true }) }),
        unprefixed_entry(0xF2) == Some(OpcodeEntry { mnemonic: Instruction::LDH, first: Some(OperandDescriptor { name: OperandName::A, immediate: true }), second: Some(OperandDescriptor { name: OperandName::C, immediate: false }) }),
        unprefixed_entry(0xF5) == Some(OpcodeEntry { mnemonic: Instruction::PUSH, first: Some(OperandDescriptor { name: OperandName::AF, immediate: true }), second: None }),
        unprefixed_entry(0xFF) == Some(OpcodeEntry { mnemonic: Instruction::RST, first: Some(OperandDescriptor { name: OperandName::Vector(0x38), immediate: true }), second: None }),
        unprefixed_entry(0x10) is None,
        unprefixed_entry(0xD3) is None,
        unprefixed_entry(0xE8) is None,
        unprefixed_entry(0xF8) is None,
        prefixed_entry(0x00) == (OpcodeEntry { mnemonic: Instruction::RLC, first: Some(OperandDescriptor { name: OperandName::B, immediate: true }), second: None }),
        prefixed_entry(0x37) == (OpcodeEntry { mnemonic: Instruction::SWAP, first: Some(OperandDescriptor { name: OperandName::A, immediate: true }), second: None }),
        prefixed_entry(0x7C) == (OpcodeEntry { mnemonic: Instruction::BIT, first: Some(OperandDescriptor { name: OperandName::Bit(7), immediate: true }), second: Some(OperandDescriptor { name: OperandName::H, immediate: true }) }),
        prefixed_entry(0x86) == (OpcodeEntry { mnemonic: Instruction::RES, first: Some(OperandDescriptor { name: OperandName::Bit(0), immediate: true }), second: Some(OperandDescriptor { name: OperandName::HL, immediate: false }) }),
        prefixed_entry(0xFF) == (OpcodeEntry { mnemonic: Instruction::SET, first: Some(OperandDescriptor { name: OperandName::Bit(7), immediate: true }), second: Some(OperandDescriptor { name: OperandName::A, immediate: true }) }),
{
}

/// Whether `e` reports the unknown name `s`.
pub open spec fn names_unknown(e: CpuError, s: Seq<char>) -> bool {
    match e {
        CpuError::UnknownOperandName(t) => t@ == s,
        _ => false,
    }
}

/// Whether two strings hold the same characters.
pub fn str_eq(a: &str, b: &str) -> (r: bool)
    ensures
        r == (a@ == b@),
{
    let n = a.unicode_len();
    if n != b.unicode_len() {
        return false;
    }
    let mut i: usize = 0;
    while i < n
        invariant
            n == a@.len(),
            n == b@.len(),
            i <= n,
            forall|j: int| 0 <= j < i ==> a@[j] == b@[j],
        decreases n - i,
    {
        if a.get_char(i) != b.get_char(i) {
            return false;
        }
        i = i + 1;
    }
    assert(a@ =~= b@);
    true
}

/// The mnemonic a name spells, in either opcode space.
pub open spec fn instruction_named(s: Seq<char>) -> Option<Instruction> {
    if s == "NOP"@ {
        Some(Instruction::NOP)
    } else if s == "RRCA"@ {
        Some(Instruction::RRCA)
    } else if s == "INC"@ {
        Some(Instruction::INC)
    } else if s == "DEC"@ {
        Some(Instruction::DEC)
    } else if s == "RLCA"@ {
        Some(Instruction::RLCA)
    } else if s == "RLA"@ {
        Some(Instruction::RLA)
    } else if s == "RRA"@ {
        Some(Instruction::RRA)
    } else if s == "PUSH"@ {
        Some(Instruction::PUSH)
    } else if s == "POP"@ {
        Some(Instruction::POP)
    } else if s == "ADD"@ {
        Some(Instruction::ADD)
    } else if s == "ADC"@ {
        Some(Instruction::ADC)
    } else if s == "SUB"@ {
        Some(Instruction::SUB)
    } else if s == "SBC"@ {
        Some(Instruction::SBC)
    } else if s == "AND"@ {
        Some(Instruction::AND)
    } else if s == "OR"@ {
        Some(Instruction::OR)
    } else if s == "XOR"@ {
        Some(Instruction::XOR)
    } else if s == "LD"@ {
        Some(Instruction::LD)
    } else if s == "LDH"@ {
        Some(Instruction::LDH)
    } else if s == "CP"@ {
        Some(Instruction::CP)
    } else if s == "DAA"@ {
        Some(Instruction::DAA)
    } else if s == "CPL"@ {
        Some(Instruction::CPL)
    } else if s == "SCF"@ {
        Some(Instruction::SCF)
    } else if s == "CCF"@ {
        Some(Instruction::CCF)
    } else if s == "JP"@ {
        Some(Instruction::JP)
    } else if s == "JR"@ {
        Some(Instruction::JR)
    } else if s == "CALL"@ {
        Some(Instruction::CALL)
    } else if s == "RET"@ {
        Some(Instruction::RET)
    } else if s == "RETI"@ {
        Some(Instruction::RETI)
    } else if s == "RST"@ {
        Some(Instruction::RST)
    } else if s == "DI"@ {
        Some(Instruction::DI)
    } else if s == "EI"@ {
        Some(Instruction::EI)
    } else if s == "HALT"@ {
        Some(Instruction::HALT)
    } else if s == "PREFIX"@ {
        Some(Instruction::PREFIX)
    } else if s == "RLC"@ {
        Some(Instruction::RLC)
    } else if s == "RRC"@ {
        Some(Instruction::RRC)
    } else if s == "RL"@ {
        Some(Instruction::RL)
    } else if s == "RR"@ {
        Some(Instruction::RR)
    } else if s == "SLA"@ {
        Some(Instruction::SLA)
    } else if s == "SRA"@ {
        Some(Instruction::SRA)
    } else if s == "SRL"@ {
        Some(Instruction::SRL)
    } else if s == "SWAP"@ {
        Some(Instruction::SWAP)
    } else if s == "BIT"@ {
        Some(Instruction::BIT)
    } else if s == "RES"@ {
        Some(Instruction::RES)
    } else if s == "SET"@ {
        Some(Instruction::SET)
    } else {
        None
    }
}

/// The CB-prefixed mnemonic a name spells.
pub open spec fn prefixed_instruction_named(s: Seq<char>) -> Option<Instruction> {
    if s == "RLC"@ {
        Some(Instruction::RLC)
    } else if s == "RRC"@ {
        Some(Instruction::RRC)
    } else if s == "RL"@ {
        Some(Instruction::RL)
    } else if s == "RR"@ {
        Some(Instruction::RR)
    } else if s == "SLA"@ {
        Some(Instruction::SLA)
    } else if s == "SRA"@ {
        Some(Instruction::SRA)
    } else if s == "SWAP"@ {
        Some(Instruction::SWAP)
    } else if s == "SRL"@ {
        Some(Instruction::SRL)
    } else if s == "BIT"@ {
        Some(Instruction::BIT)
    } else if s == "RES"@ {
        Some(Instruction::RES)
    } else if s == "SET"@ {
        Some(Instruction::SET)
    } else {
        None
    }
}

/// The sixteen-bit register a name spells.
pub open spec fn register16_named(s: Seq<char>) -> Option<RegisterNames> {
    if s == "AF"@ {
        Some(RegisterNames::AF)
    } else if s == "BC"@ {
        Some(RegisterNames::BC)
    } else if s == "DE"@ {
        Some(RegisterNames::DE)
    } else if s == "HL"@ {
        Some(RegisterNames::HL)
    } else if s == "SP"@ {
        Some(RegisterNames::SP)
    } else if s == "PC"@ {
        Some(RegisterNames::PC)
    } else {
        None
    }
}

/// The eight-bit register a name spells.
pub open spec fn register_named_8(s: Seq<char>) -> Option<RegisterNames> {
    if s == "A"@ {
        Some(RegisterNames::A)
    } else if s == "B"@ {
        Some(RegisterNames::B)
    } else if s == "C"@ {
        Some(RegisterNames::C)
    } else if s == "D"@ {
        Some(RegisterNames::D)
    } else if s == "E"@ {
        Some(RegisterNames::E)
    } else if s == "H"@ {
        Some(RegisterNames::H)
    } else if s == "L"@ {
        Some(RegisterNames::L)
    } else {
        None
    }
}

/// The register a name spells, eight or sixteen bits wide.
pub open spec fn register_named(s: Seq<char>) -> Option<RegisterNames> {
    match register_named_8(s) {
        Some(r) => Some(r),
        None => register16_named(s),
    }
}

/// The flag or condition a name spells.
pub open spec fn flag_named(s: Seq<char>) -> Option<FlagNames> {
    if s == "Z"@ {
        Some(FlagNames::Z)
    } else if s == "H"@ {
        Some(FlagNames::H)
    } else if s == "C"@ {
        Some(FlagNames::C)
    } else if s == "N"@ {
        Some(FlagNames::N)
    } else if s == "NZ"@ {
        Some(FlagNames::NZ)
    } else if s == "NC"@ {
        Some(FlagNames::NC)
    } else {
        None
    }
}

/// Parses a mnemonic of either opcode space.
pub fn match_string_to_instruction(s: &str) -> (r: Result<Instruction, CpuError>)
    ensures
        match r {
            Ok(v) => instruction_named(s@) == Some(v),
            Err(e) => instruction_named(s@) is None && names_unknown(e, s@),
        },
{
    if str_eq(s, "NOP") {
        return Ok(Instruction::NOP);
    }
    if str_eq(s, "RRCA") {
        return Ok(Instruction::RRCA);
    }
    if str_eq(s, "INC") {
        return Ok(Instruction::INC);
    }
    if str_eq(s, "DEC") {
        return Ok(Instruction::DEC);
    }
    if str_eq(s, "RLCA") {
        return Ok(Instruction::RLCA);
    }
    if str_eq(s, "RLA") {
        return Ok(Instruction::RLA);
    }
    if str_eq(s, "RRA") {
        return Ok(Instruction::RRA);
    }
    if str_eq(s, "PUSH") {
        return Ok(Instruction::PUSH);
    }
    if str_eq(s, "POP") {
        return Ok(Instruction::POP);
    }
    if str_eq(s, "ADD") {
        return Ok(Instruction::ADD);
    }
    if str_eq(s, "ADC") {
        return Ok(Instruction::ADC);
    }
    if str_eq(s, "SUB") {
        return Ok(Instruction::SUB);
    }
    if str_eq(s, "SBC") {
        return Ok(Instruction::SBC);
    }
    if str_eq(s, "AND") {
        return Ok(Instruction::AND);
    }
    if str_eq(s, "OR") {
        return Ok(Instruction::OR);
    }
    if str_eq(s, "XOR") {
        return Ok(Instruction::XOR);
    }
    if str_eq(s, "LD") {
        return Ok(Instruction::LD);
    }
    if str_eq(s, "LDH") {
        return Ok(Instruction::LDH);
    }
    if str_eq(s, "CP") {
        return Ok(Instruction::CP);
    }
    if str_eq(s, "DAA") {
        return Ok(Instruction::DAA);
    }
    if str_eq(s, "CPL") {
        return Ok(Instruction::CPL);
    }
    if str_eq(s, "SCF") {
        return Ok(Instruction::SCF);
    }
    if str_eq(s, "CCF") {
        return Ok(Instruction::CCF);
    }
    if str_eq(s, "JP") {
        return Ok(Instruction::JP);
    }
    if str_eq(s, "JR") {
        return Ok(Instruction::JR);
    }
    if str_eq(s, "CALL") {
        return Ok(Instruction::CALL);
    }
    if str_eq(s, "RET") {
        return Ok(Instruction::RET);
    }
    if str_eq(s, "RETI") {
        return Ok(Instruction::RETI);
    }
    if str_eq(s, "RST") {
        return Ok(Instruction::RST);
    }
    if str_eq(s, "DI") {
        return Ok(Instruction::DI);
    }
    if str_eq(s, "EI") {
        return Ok(Instruction::EI);
    }
    if str_eq(s, "HALT") {
        return Ok(Instruction::HALT);
    }
    if str_eq(s, "PREFIX") {
        return Ok(Instruction::PREFIX);
    }
    if str_eq(s, "RLC") {
        return Ok(Instruction::RLC);
    }
    if str_eq(s, "RRC") {
        return Ok(Instruction::RRC);
    }
    if str_eq(s, "RL") {
        return Ok(Instruction::RL);
    }
    if str_eq(s, "RR") {
        return Ok(Instruction::RR);
    }
    if str_eq(s, "SLA") {
        return Ok(Instruction::SLA);
    }
    if str_eq(s, "SRA") {
        return Ok(Instruction::SRA);
    }
    if str_eq(s, "SRL") {
        return Ok(Instruction::SRL);
    }
    if str_eq(s, "SWAP") {
        return Ok(Instruction::SWAP);
    }
    if str_eq(s, "BIT") {
        return Ok(Instruction::BIT);
    }
    if str_eq(s, "RES") {
        return Ok(Instruction::RES);
    }
    if str_eq(s, "SET") {
        return Ok(Instruction::SET);
    }
    Err(CpuError::UnknownOperandName(s.to_owned()))
}

/// Parses a mnemonic of the CB-prefixed space.
pub fn match_string_preinstruction(s: &str) -> (r: Result<Instruction, CpuError>)
    ensures
        match r {
            Ok(v) => prefixed_instruction_named(s@) == Some(v),
            Err(e) => prefixed_instruction_named(s@) is None && names_unknown(e, s@),
        },
{
    if str_eq(s, "RLC") {
        return Ok(Instruction::RLC);
    }
    if str_eq(s, "RRC") {
        return Ok(Instruction::RRC);
    }
    if str_eq(s, "RL") {
        return Ok(Instruction::RL);
    }
    if str_eq(s, "RR") {
        return Ok(Instruction::RR);
    }
    if str_eq(s, "SLA") {
        return Ok(Instruction::SLA);
    }
    if str_eq(s, "SRA") {
        return Ok(Instruction::SRA);
    }
    if str_eq(s, "SWAP") {
        return Ok(Instruction::SWAP);
    }
    if str_eq(s, "SRL") {
        return Ok(Instruction::SRL);
    }
    if str_eq(s, "BIT") {
        return Ok(Instruction::BIT);
    }
    if str_eq(s, "RES") {
        return Ok(Instruction::RES);
    }
    if str_eq(s, "SET") {
        return Ok(Instruction::SET);
    }
    Err(CpuError::UnknownOperandName(s.to_owned()))
}

/// Parses the name of a sixteen-bit register.
pub fn match_string_to_register16(s: &str) -> (r: Result<RegisterNames, CpuError>)
    ensures
        match r {
            Ok(v) => register16_named(s@) == Some(v),
            Err(e) => register16_named(s@) is None && names_unknown(e, s@),
        },
{
    if str_eq(s, "AF") {
        return Ok(RegisterNames::AF);
    }
    if str_eq(s, "BC") {
        return Ok(RegisterNames::BC);
    }
    if str_eq(s, "DE") {
        return Ok(RegisterNames::DE);
    }
    if str_eq(s, "HL") {
        return Ok(RegisterNames::HL);
    }
    if str_eq(s, "SP") {
        return Ok(RegisterNames::SP);
    }
    if str_eq(s, "PC") {
        return Ok(RegisterNames::PC);
    }
    Err(CpuError::UnknownOperandName(s.to_owned()))
}

/// Parses the name of a register, eight or sixteen bits wide.
pub fn match_string_to_register(s: &str) -> (r: Result<RegisterNames, CpuError>)
    ensures
        match r {
            Ok(v) => register_named(s@) == Some(v),
            Err(e) => register_named(s@) is None && names_unknown(e, s@),
        },
{
    if str_eq(s, "A") {
        return Ok(RegisterNames::A);
    }
    if str_eq(s, "B") {
        return Ok(RegisterNames::B);
    }
    if str_eq(s, "C") {
        return Ok(RegisterNames::C);
    }
    if str_eq(s, "D") {
        return Ok(RegisterNames::D);
    }
    if str_eq(s, "E") {
        return Ok(RegisterNames::E);
    }
    if str_eq(s, "H") {
        return Ok(RegisterNames::H);
    }
    if str_eq(s, "L") {
        return Ok(RegisterNames::L);
    }
    match_string_to_register16(s)
}

/// Parses the name of a flag or condition.
pub fn match_string_to_flag(s: &str) -> (r: Result<FlagNames, CpuError>)
    ensures
        match r {
            Ok(v) => flag_named(s@) == Some(v),
            Err(e) => flag_named(s@) is None && names_unknown(e, s@),
        },
{
    if str_eq(s, "Z") {
        return Ok(FlagNames::Z);
    }
    if str_eq(s, "H") {
        return Ok(FlagNames::H);
    }
    if str_eq(s, "C") {
        return Ok(FlagNames::C);
    }
    if str_eq(s, "N") {
        return Ok(FlagNames::N);
    }
    if str_eq(s, "NZ") {
        return Ok(FlagNames::NZ);
    }
    if str_eq(s, "NC") {
        return Ok(FlagNames::NC);
    }
    Err(CpuError::UnknownOperandName(s.to_owned()))
}

/// Whether an operand name is a branch condition: Z, NZ, C or NC as an
/// operand of JP, JR, CALL or RET.
pub open spec fn is_condition(s: Seq<char>, instr: Instruction) -> bool {
    (s == "Z"@ || s == "NZ"@ || s == "C"@ || s == "NC"@) && instr.is_branch()
}

pub fn is_flag(operand: &str, instr: &Instruction) -> (r: bool)
    ensures
        r == is_condition(operand@, *instr),
{
    (str_eq(operand, "Z") || str_eq(operand, "NZ") || str_eq(operand, "C") || str_eq(operand, "NC"))
        && instr.is_branch_mnemonic()
}

} // verus!
