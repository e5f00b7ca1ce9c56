use vstd::prelude::*;

use crate::error::CpuError;
use crate::instructions::{instruction_outcome, wrap16, Operand};
use crate::mmu::{MemoryView, MMU};
use crate::opcodes::{
    decode_prefixed, decode_unprefixed, prefixed_entry, unprefixed_entry, Instruction, OpcodeEntry,
    OperandDescriptor, OperandName,
};
use crate::registers::{FlagNames, RegisterNames, Registers};

verus! {

/// The state of the core: registers, the bus, the halted state and the
/// interrupt master enable flag.
pub struct Machine {
    pub regs: Registers,
    pub mem: MemoryView,
    pub halted: bool,
    pub ime: bool,
}

/// The byte of the instruction stream at `a`: ROM below 0x8000, zero above.
pub open spec fn stream_byte(mem: MemoryView, a: u16) -> u8 {
    if a < 0x8000 {
        mem.mem[a as int]
    } else {
        0
    }
}

/// Fetches the byte at PC and advances PC.
pub open spec fn fetch_spec(m: Machine) -> (u8, Machine) {
    (
        stream_byte(m.mem, m.regs.pc),
        Machine { regs: Registers { pc: wrap16(m.regs.pc + 1), ..m.regs }, ..m },
    )
}

/// Fetches the little-endian word at PC and advances PC by two.
pub open spec fn fetch_word_spec(m: Machine) -> (u16, Machine) {
    let (low, m1) = fetch_spec(m);
    let (high, m2) = fetch_spec(m1);
    ((low + 256 * high) as u16, m2)
}

/// The register an operand name stands for, if it names one.
pub open spec fn register_of(name: OperandName) -> Option<RegisterNames> {
    match name {
        OperandName::A => Some(RegisterNames::A),
        OperandName::B => Some(RegisterNames::B),
        OperandName::C => Some(RegisterNames::C),
        OperandName::D => Some(RegisterNames::D),
        OperandName::E => Some(RegisterNames::E),
        OperandName::H => Some(RegisterNames::H),
        OperandName::L => Some(RegisterNames::L),
        OperandName::AF => Some(RegisterNames::AF),
        OperandName::BC => Some(RegisterNames::BC),
        OperandName::DE => Some(RegisterNames::DE),
        OperandName::HL => Some(RegisterNames::HL),
        OperandName::SP => Some(RegisterNames::SP),
        _ => None,
    }
}

/// A register operand: used as is when marked immediate; otherwise a pair
/// holds an address, and an eight-bit register can only be an LDH offset.
pub open spec fn register_operand(r: RegisterNames, immediate: bool, instr: Instruction, m: Machine) -> (
    Result<Operand, CpuError>,
    Machine,
) {
    if immediate {
        (Ok(Operand::Register(r)), m)
    } else if r.is_8bit() {
        if instr == Instruction::LDH {
            (Ok(Operand::Register(r)), m)
        } else {
            (Err(CpuError::InvalidRegisterForOperation(r)), m)
        }
    } else {
        (Ok(Operand::Memory(m.regs.get16(r))), m)
    }
}

/// A condition operand, which only the branch mnemonics take.
pub open spec fn condition_operand(f: FlagNames, instr: Instruction, m: Machine) -> (
    Result<Operand, CpuError>,
    Machine,
) {
    if instr.is_branch() {
        (Ok(Operand::Flag(f)), m)
    } else {
        (Err(CpuError::InvalidOperand(Operand::Flag(f))), m)
    }
}

/// Resolves an operand descriptor into an operand, consuming immediate bytes.
pub open spec fn resolve_spec(d: OperandDescriptor, instr: Instruction, m: Machine) -> (
    Result<Operand, CpuError>,
    Machine,
) {
    match d.name {
        OperandName::N16 | OperandName::A16 => {
            let (w, m1) = fetch_word_spec(m);
            if instr == Instruction::LD && !d.immediate {
                (Ok(Operand::Memory(w)), m1)
            } else {
                (Ok(Operand::Immediate16(w)), m1)
            }
        },
        OperandName::N8 | OperandName::A8 | OperandName::E8 => {
            let (b, m1) = fetch_spec(m);
            (Ok(Operand::Immediate(b)), m1)
        },
        OperandName::Z => condition_operand(FlagNames::Z, instr, m),
        OperandName::NZ => condition_operand(FlagNames::NZ, instr, m),
        OperandName::NC => condition_operand(FlagNames::NC, instr, m),
        OperandName::C => if instr.is_branch() {
            (Ok(Operand::Flag(FlagNames::C)), m)
        } else {
            register_operand(RegisterNames::C, d.immediate, instr, m)
        },
        OperandName::Bit(n) => (Ok(Operand::Immediate(n)), m),
        OperandName::Vector(t) => (Ok(Operand::Immediate16(t as u16)), m),
        OperandName::HLI => (
            Ok(Operand::Memory(m.regs.hl)),
            Machine { regs: Registers { hl: wrap16(m.regs.hl + 1), ..m.regs }, ..m },
        ),
        OperandName::HLD => (
            Ok(Operand::Memory(m.regs.hl)),
            Machine { regs: Registers { hl: wrap16(m.regs.hl - 1), ..m.regs }, ..m },
        ),
        _ => match register_of(d.name) {
            Some(r) => register_operand(r, d.immediate, instr, m),
            None => (Err(CpuError::InvalidOperand(Operand::NIL)), m),
        },
    }
}

/// Resolves the operands of an entry in order; a missing operand is `NIL`.
pub open spec fn operands_spec(e: OpcodeEntry, m: Machine) -> (Result<(Operand, Operand), CpuError>, Machine) {
    match e.first {
        None => (Ok((Operand::NIL, Operand::NIL)), m),
        Some(d1) => {
            let (r1, m1) = resolve_spec(d1, e.mnemonic, m);
            match r1 {
                Err(x) => (Err(x), m1),
                Ok(o1) => match e.second {
                    None => (Ok((o1, Operand::NIL)), m1),
                    Some(d2) => {
                        let (r2, m2) = resolve_spec(d2, e.mnemonic, m1);
                        match r2 {
                            Err(x) => (Err(x), m2),
                            Ok(o2) => (Ok((o1, o2)), m2),
                        }
                    },
                },
            }
        },
    }
}

/// Executes an instruction on resolved operands; DI, EI and RETI set the
/// interrupt master enable flag, HALT halts.
pub open spec fn execute_spec(instr: Instruction, o1: Operand, o2: Operand, m: Machine) -> (
    Result<(), CpuError>,
    Machine,
) {
    let (r, regs, mem) = instruction_outcome(instr, o1, o2, m.regs, m.mem);
    let ok = r is Ok;
    (
        r,
        Machine {
            regs,
            mem,
            halted: m.halted || (ok && instr == Instruction::HALT),
            ime: if ok && instr == Instruction::DI {
                false
            } else if ok && (instr == Instruction::EI || instr == Instruction::RETI) {
                true
            } else {
                m.ime
            },
        },
    )
}

/// Resolves the operands of an entry, then executes it.
pub open spec fn run_entry_spec(e: OpcodeEntry, m: Machine) -> (Result<(), CpuError>, Machine) {
    let (ops, m1) = operands_spec(e, m);
    match ops {
        Err(x) => (Err(x), m1),
        Ok((o1, o2)) => execute_spec(e.mnemonic, o1, o2, m1),
    }
}

/// After the 0xCB prefix: fetches the second byte and runs its CB-table entry.
pub open spec fn prefixed_step_spec(m: Machine) -> (Result<(), CpuError>, Machine) {
    let (op, m1) = fetch_spec(m);
    run_entry_spec(prefixed_entry(op), m1)
}

/// Decodes the opcode byte `op` found at PC and runs it. An opcode without an
/// entry is refused before anything changes, PC included; otherwise PC moves
/// past the opcode and the entry runs.
pub open spec fn dispatch_spec(op: u8, m: Machine) -> (Result<(), CpuError>, Machine) {
    match unprefixed_entry(op) {
        None => (Err(CpuError::UnknownOpcode(op)), m),
        Some(e) => {
            let m1 = fetch_spec(m).1;
            if e.mnemonic == Instruction::PREFIX {
                prefixed_step_spec(m1)
            } else {
                run_entry_spec(e, m1)
            }
        },
    }
}

/// One step: nothing when halted, else decode the opcode byte at PC and run it.
pub open spec fn step_spec(m: Machine) -> (Result<(), CpuError>, Machine) {
    if m.halted {
        (Ok(()), m)
    } else {
        dispatch_spec(stream_byte(m.mem, m.regs.pc), m)
    }
}

/// The entry of the instruction at PC, read without executing anything.
pub open spec fn decode_at_spec(m: Machine) -> Result<OpcodeEntry, CpuError> {
    let (op, m1) = fetch_spec(m);
    match unprefixed_entry(op) {
        None => Err(CpuError::UnknownOpcode(op)),
        Some(e) => if e.mnemonic == Instruction::PREFIX {
            Ok(prefixed_entry(fetch_spec(m1).0))
        } else {
            Ok(e)
        },
    }
}

/// Decoding is a pure table lookup: two machines with the same PC and the
/// same instruction-stream bytes at PC and PC+1 decode to the same entry,
/// whatever their other registers, flags or memory hold.
pub proof fn lemma_decode_depends_only_on_stream(m1: Machine, m2: Machine)
    requires
        m1.regs.pc == m2.regs.pc,
        stream_byte(m1.mem, m1.regs.pc) == stream_byte(m2.mem, m2.regs.pc),
        stream_byte(m1.mem, wrap16(m1.regs.pc + 1)) == stream_byte(m2.mem, wrap16(m2.regs.pc + 1)),
    ensures
        decode_at_spec(m1) == decode_at_spec(m2),
{
}

/// Opcodes 0x00-0x3F with an entry run without error.
#[verifier::rlimit(100)]
#[verifier::spinoff_prover]
proof fn lemma_block0_runs(op: u8, m: Machine)
    requires
        m.mem.wf(),
        op / 64 == 0,
        unprefixed_entry(op) is Some,
    ensures
        dispatch_spec(op, m).0 is Ok,
{
    let y = (op / 8) % 8;
    let z = op % 8;
    if z == 0 {
        if y == 0 {
        } else if y == 1 {
        } else if y == 2 {
        } else if y == 3 {
        } else if y == 4 {
        } else if y == 5 {
        } else if y == 6 {
        } else if y == 7 {
        }
    } else if z == 1 {
        if y == 0 {
        } else if y == 1 {
        } else if y == 2 {
        } else if y == 3 {
        } else if y == 4 {
        } else if y == 5 {
        } else if y == 6 {
        } else if y == 7 {
        }
    } else if z == 2 {
        if y == 0 {
        } else if y == 1 {
        } else if y == 2 {
        } else if y == 3 {
        } else if y == 4 {
        } else if y == 5 {
        } else if y == 6 {
        } else if y == 7 {
        }
    } else if z == 3 {
        if y == 0 {
        } else if y == 1 {
        } else if y == 2 {
        } else if y == 3 {
        } else if y == 4 {
        } else if y == 5 {
        } else if y == 6 {
        } else if y == 7 {
        }
    } else if z == 4 {
        if y == 0 {
        } else if y == 1 {
        } else if y == 2 {
        } else if y == 3 {
        } else if y == 4 {
        } else if y == 5 {
        } else if y == 6 {
        } else if y == 7 {
        }
    } else if z == 5 {
        if y == 0 {
        } else if y == 1 {
        } else if y == 2 {
        } else if y == 3 {
        } else if y == 4 {
        } else if y == 5 {
        } else if y == 6 {
        } else if y == 7 {
        }
    } else if z == 6 {
        if y == 0 {
        } else if y == 1 {
        } else if y == 2 {
        } else if y == 3 {
        } else if y == 4 {
        } else if y == 5 {
        } else if y == 6 {
        } else if y == 7 {
        }
    } else if z == 7 {
        if y == 0 {
        } else if y == 1 {
        } else if y == 2 {
        } else if y == 3 {
        } else if y == 4 {
        } else if y == 5 {
        } else if y == 6 {
        } else if y == 7 {
        }
    }
}

/// Opcodes 0x40-0x7F (LD r,r' and HALT) run without error.
#[verifier::rlimit(100)]
#[verifier::spinoff_prover]
proof fn lemma_load_block_runs(op: u8, m: Machine)
    requires
        m.mem.wf(),
        op / 64 == 1,
        unprefixed_entry(op) is Some,
    ensures
        dispatch_spec(op, m).0 is Ok,
{
    let y = (op / 8) % 8;
    let z = op % 8;
    if z == 0 {
        if y == 0 {
        } else if y == 1 {
        } else if y == 2 {
        } else if y == 3 {
        } else if y == 4 {
        } else if y == 5 {
        } else if y == 6 {
        } else if y == 7 {
        }
    } else if z == 1 {
        if y == 0 {
        } else if y == 1 {
        } else if y == 2 {
        } else if y == 3 {
        } else if y == 4 {
        } else if y == 5 {
        } else if y == 6 {
        } else if y == 7 {
        }
    } else if z == 2 {
        if y == 0 {
        } else if y == 1 {
        } else if y == 2 {
        } else if y == 3 {
        } else if y == 4 {
        } else if y == 5 {
        } else if y == 6 {
        } else if y == 7 {
        }
    } else if z == 3 {
        if y == 0 {
        } else if y == 1 {
        } else if y == 2 {
        } else if y == 3 {
        } else if y == 4 {
        } else if y == 5 {
        } else if y == 6 {
        } else if y == 7 {
        }
    } else if z == 4 {
        if y == 0 {
        } else if y == 1 {
        } else if y == 2 {
        } else if y == 3 {
        } else if y == 4 {
        } else if y == 5 {
        } else if y == 6 {
        } else if y == 7 {
        }
    } else if z == 5 {
        if y == 0 {
        } else if y == 1 {
        } else if y == 2 {
        } else if y == 3 {
        } else if y == 4 {
        } else if y == 5 {
        } else if y == 6 {
        } else if y == 7 {
        }
    } else if z == 6 {
        if y == 0 {
        } else if y == 1 {
        } else if y == 2 {
        } else if y == 3 {
        } else if y == 4 {
        } else if y == 5 {
        } else if y == 6 {
        } else if y == 7 {
        }
    } else if z == 7 {
        if y == 0 {
        } else if y == 1 {
        } else if y == 2 {
        } else if y == 3 {
        } else if y == 4 {
        } else if y == 5 {
        } else if y == 6 {
        } else if y == 7 {
        }
    }
}

/// Opcodes 0x80-0xBF (ALU A,r) run without error.
#[verifier::rlimit(100)]
#[verifier::spinoff_prover]
proof fn lemma_alu_block_runs(op: u8, m: Machine)
    requires
        m.mem.wf(),
        op / 64 == 2,
        unprefixed_entry(op) is Some,
    ensures
        dispatch_spec(op, m).0 is Ok,
{
    let y = (op / 8) % 8;
    let z = op % 8;
    if z == 0 {
        if y == 0 {
        } else if y == 1 {
        } else if y == 2 {
        } else if y == 3 {
        } else if y == 4 {
        } else if y == 5 {
        } else if y == 6 {
        } else if y == 7 {
        }
    } else if z == 1 {
        if y == 0 {
        } else if y == 1 {
        } else if y == 2 {
        } else if y == 3 {
        } else if y == 4 {
        } else if y == 5 {
        } else if y == 6 {
        } else if y == 7 {
        }
    } else if z == 2 {
        if y == 0 {
        } else if y == 1 {
        } else if y == 2 {
        } else if y == 3 {
        } else if y == 4 {
        } else if y == 5 {
        } else if y == 6 {
        } else if y == 7 {
        }
    } else if z == 3 {
        if y == 0 {
        } else if y == 1 {
        } else if y == 2 {
        } else if y == 3 {
        } else if y == 4 {
        } else if y == 5 {
        } else if y == 6 {
        } else if y == 7 {
        }
    } else if z == 4 {
        if y == 0 {
        } else if y == 1 {
        } else if y == 2 {
        } else if y == 3 {
        } else if y == 4 {
        } else if y == 5 {
        } else if y == 6 {
        } else if y == 7 {
        }
    } else if z == 5 {
        if y == 0 {
        } else if y == 1 {
        } else if y == 2 {
        } else if y == 3 {
        } else if y == 4 {
        } else if y == 5 {
        } else if y == 6 {
        } else if y == 7 {
        }
    } else if z == 6 {
        if y == 0 {
        } else if y == 1 {
        } else if y == 2 {
        } else if y == 3 {
        } else if y == 4 {
        } else if y == 5 {
        } else if y == 6 {
        } else if y == 7 {
        }
    } else if z == 7 {
        if y == 0 {
        } else if y == 1 {
        } else if y == 2 {
        } else if y == 3 {
        } else if y == 4 {
        } else if y == 5 {
        } else if y == 6 {
        } else if y == 7 {
        }
    }
}

/// Every entry of the CB-prefixed table runs without error.
#[verifier::rlimit(100)]
#[verifier::spinoff_prover]
proof fn lemma_prefixed_entries_run(op: u8, m: Machine)
    requires
        m.mem.wf(),
    ensures
        run_entry_spec(prefixed_entry(op), m).0 is Ok,
{
    let x = op / 64;
    let z = op % 8;
    if x == 0 {
        if z == 0 {
        } else if z == 1 {
        } else if z == 2 {
        } else if z == 3 {
        } else if z == 4 {
        } else if z == 5 {
        } else if z == 6 {
        } else if z == 7 {
        }
    } else if x == 1 {
        if z == 0 {
        } else if z == 1 {
        } else if z == 2 {
        } else if z == 3 {
        } else if z == 4 {
        } else if z == 5 {
        } else if z == 6 {
        } else if z == 7 {
        }
    } else if x == 2 {
        if z == 0 {
        } else if z == 1 {
        } else if z == 2 {
        } else if z == 3 {
        } else if z == 4 {
        } else if z == 5 {
        } else if z == 6 {
        } else if z == 7 {
        }
    } else if x == 3 {
        if z == 0 {
        } else if z == 1 {
        } else if z == 2 {
        } else if z == 3 {
        } else if z == 4 {
        } else if z == 5 {
        } else if z == 6 {
        } else if z == 7 {
        }
    }
}

/// Opcodes 0xC0-0xFF in columns 0-2 (returns, POP, JP, LDH, LD) run without
/// error.
#[verifier::rlimit(100)]
#[verifier::spinoff_prover]
proof fn lemma_returns_pops_jumps_run(op: u8, m: Machine)
    requires
        m.mem.wf(),
        op / 64 == 3,
        op % 8 == 0 || op % 8 == 1 || op % 8 == 2,
        op != 0xCB,
        unprefixed_entry(op) is Some,
    ensures
        dispatch_spec(op, m).0 is Ok,
{
    let y = (op / 8) % 8;
    let z = op % 8;
    if z == 0 {
        if y == 0 {
        } else if y == 1 {
        } else if y == 2 {
        } else if y == 3 {
        } else if y == 4 {
        } else if y == 5 {
        } else if y == 6 {
        } else if y == 7 {
        }
    } else if z == 1 {
        if y == 0 {
        } else if y == 1 {
        } else if y == 2 {
        } else if y == 3 {
        } else if y == 4 {
        } else if y == 5 {
        } else if y == 6 {
        } else if y == 7 {
        }
    } else if z == 2 {
        if y == 0 {
        } else if y == 1 {
        } else if y == 2 {
        } else if y == 3 {
        } else if y == 4 {
        } else if y == 5 {
        } else if y == 6 {
        } else if y == 7 {
        }
    }
}

/// Opcodes 0xC0-0xFF in columns 3-5 (JP, DI, EI, CALL, PUSH) run without
/// error; 0xCB is handled apart.
#[verifier::rlimit(100)]
#[verifier::spinoff_prover]
proof fn lemma_calls_pushes_run(op: u8, m: Machine)
    requires
        m.mem.wf(),
        op / 64 == 3,
        op % 8 == 3 || op % 8 == 4 || op % 8 == 5,
        op != 0xCB,
        unprefixed_entry(op) is Some,
    ensures
        dispatch_spec(op, m).0 is Ok,
{
    let y = (op / 8) % 8;
    let z = op % 8;
    if z == 3 {
        if y == 0 {
        } else if y == 1 {
        } else if y == 2 {
        } else if y == 3 {
        } else if y == 4 {
        } else if y == 5 {
        } else if y == 6 {
        } else if y == 7 {
        }
    } else if z == 4 {
        if y == 0 {
        } else if y == 1 {
        } else if y == 2 {
        } else if y == 3 {
        } else if y == 4 {
        } else if y == 5 {
        } else if y == 6 {
        } else if y == 7 {
        }
    } else if z == 5 {
        if y == 0 {
        } else if y == 1 {
        } else if y == 2 {
        } else if y == 3 {
        } else if y == 4 {
        } else if y == 5 {
        } else if y == 6 {
        } else if y == 7 {
        }
    }
}

/// Opcodes 0xC0-0xFF in columns 6-7 (ALU A,n8 and RST) run without error.
#[verifier::rlimit(100)]
#[verifier::spinoff_prover]
proof fn lemma_immediates_restarts_run(op: u8, m: Machine)
    requires
        m.mem.wf(),
        op / 64 == 3,
        op % 8 == 6 || op % 8 == 7,
        op != 0xCB,
        unprefixed_entry(op) is Some,
    ensures
        dispatch_spec(op, m).0 is Ok,
{
    let y = (op / 8) % 8;
    let z = op % 8;
    if z == 6 {
        if y == 0 {
        } else if y == 1 {
        } else if y == 2 {
        } else if y == 3 {
        } else if y == 4 {
        } else if y == 5 {
        } else if y == 6 {
        } else if y == 7 {
        }
    } else if z == 7 {
        if y == 0 {
        } else if y == 1 {
        } else if y == 2 {
        } else if y == 3 {
        } else if y == 4 {
        } else if y == 5 {
        } else if y == 6 {
        } else if y == 7 {
        }
    }
}

/// The prefix 0xCB runs without error, whatever byte follows it.
proof fn lemma_prefix_runs(m: Machine)
    requires
        m.mem.wf(),
    ensures
        dispatch_spec(0xCB, m).0 is Ok,
{
    let m1 = fetch_spec(m).1;
    let (op, m2) = fetch_spec(m1);
    assert(unprefixed_entry(0xCB) == Some(
        OpcodeEntry { mnemonic: Instruction::PREFIX, first: None, second: None },
    ));
    assert(dispatch_spec(0xCB, m) == prefixed_step_spec(m1));
    lemma_prefixed_entries_run(op, m2);
}

/// Opcodes 0xC0-0xFF with an entry, 0xCB included, run without error.
proof fn lemma_block3_runs(op: u8, m: Machine)
    requires
        m.mem.wf(),
        op / 64 == 3,
        unprefixed_entry(op) is Some,
    ensures
        dispatch_spec(op, m).0 is Ok,
{
    let z = op % 8;
    if op == 0xCB {
        lemma_prefix_runs(m);
    } else if z <= 2 {
        lemma_returns_pops_jumps_run(op, m);
    } else if z <= 5 {
        lemma_calls_pushes_run(op, m);
    } else {
        lemma_immediates_restarts_run(op, m);
    }
}

/// Every opcode with an entry in the table executes without error, and so
/// does every CB-prefixed opcode after 0xCB: a step fails only on an opcode
/// that has no entry.
pub proof fn lemma_table_entries_run(op: u8, m: Machine)
    requires
        m.mem.wf(),
        unprefixed_entry(op) is Some,
    ensures
        dispatch_spec(op, m).0 is Ok,
{
    if op / 64 == 0 {
        lemma_block0_runs(op, m);
    } else if op / 64 == 1 {
        lemma_load_block_runs(op, m);
    } else if op / 64 == 2 {
        lemma_alu_block_runs(op, m);
    } else {
        lemma_block3_runs(op, m);
    }
}

/// A step either succeeds or fails having changed nothing: registers, PC,
/// flags, memory, the halted state and the interrupt enable flag all keep
/// their values.
pub proof fn lemma_step_fails_atomically(m: Machine)
    requires
        m.mem.wf(),
    ensures
        step_spec(m).0 is Err ==> step_spec(m).1 == m,
{
    if !m.halted {
        let op = stream_byte(m.mem, m.regs.pc);
        if unprefixed_entry(op) is Some {
            lemma_table_entries_run(op, m);
        }
    }
}

/// The instruction-execution core: it owns the register file and the bus.
pub struct CPU {
    pub registers: Registers,
    pub memory: MMU,
    pub halted: bool,
    /// Interrupt master enable, toggled by DI and EI; interrupts themselves
    /// are serviced by whoever drives the core.
    pub ime: bool,
}

impl View for CPU {
    type V = Machine;

    open spec fn view(&self) -> Machine {
        Machine { regs: self.registers, mem: self.memory@, halted: self.halted, ime: self.ime }
    }
}

impl CPU {
    pub open spec fn wf(&self) -> bool {
        self.memory.wf()
    }

    /// A running core over `mmu`, with the registers the boot ROM leaves.
    pub fn new(mmu: MMU) -> (r: CPU)
        requires
            mmu.wf(),
        ensures
            r.wf(),
            r@ == (Machine { regs: Registers::boot(), mem: mmu@, halted: false, ime: false }),
    {
        CPU { registers: Registers::new(), memory: mmu, halted: false, ime: false }
    }

    fn read_byte(&mut self) -> (r: u8)
        requires
            old(self).wf(),
        ensures
            final(self).wf(),
            (r, final(self)@) == fetch_spec(old(self)@),
    {
        let byte = self.memory.read_rom(self.registers.pc);
        self.registers.pc = self.registers.pc.wrapping_add(1);
        byte
    }

    fn read_word(&mut self) -> (r: u16)
        requires
            old(self).wf(),
        ensures
            final(self).wf(),
            (r, final(self)@) == fetch_word_spec(old(self)@),
    {
        let low = self.read_byte();
        let high = self.read_byte();
        (high as u16) * 256 + (low as u16)
    }

    fn register_operand(&self, reg: RegisterNames, immediate: bool, instr: Instruction) -> (r: Result<Operand, CpuError>)
        ensures
            (r, self@) == register_operand(reg, immediate, instr, self@),
    {
        if immediate {
            Ok(Operand::Register(reg))
        } else if reg.is_byte_register() {
            if instr == Instruction::LDH {
                Ok(Operand::Register(reg))
            } else {
                Err(CpuError::InvalidRegisterForOperation(reg))
            }
        } else {
            match self.registers.get_register_value_16(reg) {
                Ok(v) => Ok(Operand::Memory(v)),
                Err(e) => Err(e),
            }
        }
    }

    fn condition_operand(&self, f: FlagNames, instr: Instruction) -> (r: Result<Operand, CpuError>)
        ensures
            (r, self@) == condition_operand(f, instr, self@),
    {
        if instr.is_branch_mnemonic() {
            Ok(Operand::Flag(f))
        } else {
            Err(CpuError::InvalidOperand(Operand::Flag(f)))
        }
    }

    /// Resolves an operand descriptor, consuming immediate bytes from the
    /// instruction stream.
    pub fn get_operand(&mut self, d: OperandDescriptor, instr: Instruction) -> (r: Result<Operand, CpuError>)
        requires
            old(self).wf(),
        ensures
            final(self).wf(),
            (r, final(self)@) == resolve_spec(d, instr, old(self)@),
    {
        match d.name {
            OperandName::N16 | OperandName::A16 => {
                let value = self.read_word();
                if instr == Instruction::LD && !d.immediate {
                    Ok(Operand::Memory(value))
                } else {
                    Ok(Operand::Immediate16(value))
                }
            },
            OperandName::N8 | OperandName::A8 | OperandName::E8 => Ok(Operand::Immediate(self.read_byte())),
            OperandName::Z => self.condition_operand(FlagNames::Z, instr),
            OperandName::NZ => self.condition_operand(FlagNames::NZ, instr),
            OperandName::NC => self.condition_operand(FlagNames::NC, instr),
            OperandName::C => if instr.is_branch_mnemonic() {
                Ok(Operand::Flag(FlagNames::C))
            } else {
                self.register_operand(RegisterNames::C, d.immediate, instr)
            },
            OperandName::Bit(n) => Ok(Operand::Immediate(n)),
            OperandName::Vector(t) => Ok(Operand::Immediate16(t as u16)),
            OperandName::HLI => {
                let addr = self.registers.hl;
                self.registers.hl = addr.wrapping_add(1);
                Ok(Operand::Memory(addr))
            },
            OperandName::HLD => {
                let addr = self.registers.hl;
                self.registers.hl = addr.wrapping_sub(1);
                Ok(Operand::Memory(addr))
            },
            OperandName::A => self.register_operand(RegisterNames::A, d.immediate, instr),
            OperandName::B => self.register_operand(RegisterNames::B, d.immediate, instr),
            OperandName::D => self.register_operand(RegisterNames::D, d.immediate, instr),
            OperandName::E => self.register_operand(RegisterNames::E, d.immediate, instr),
            OperandName::H => self.register_operand(RegisterNames::H, d.immediate, instr),
            OperandName::L => self.register_operand(RegisterNames::L, d.immediate, instr),
            OperandName::AF => self.register_operand(RegisterNames::AF, d.immediate, instr),
            OperandName::BC => self.register_operand(RegisterNames::BC, d.immediate, instr),
            OperandName::DE => self.register_operand(RegisterNames::DE, d.immediate, instr),
            OperandName::HL => self.register_operand(RegisterNames::HL, d.immediate, instr),
            OperandName::SP => self.register_operand(RegisterNames::SP, d.immediate, instr),
        }
    }

    /// Resolves the operands of an entry in order.
    fn get_operands(&mut self, e: OpcodeEntry) -> (r: Result<[Operand; 2], CpuError>)
        requires
            old(self).wf(),
        ensures
            final(self).wf(),
            (match r {
                Ok(ops) => Ok((ops[0], ops[1])),
                Err(x) => Err(x),
            }, final(self)@) == operands_spec(e, old(self)@),
    {
        match e.first {
            None => Ok([Operand::NIL, Operand::NIL]),
            Some(d1) => {
                let o1 = match self.get_operand(d1, e.mnemonic) {
                    Ok(o) => o,
                    Err(x) => return Err(x),
                };
                match e.second {
                    None => Ok([o1, Operand::NIL]),
                    Some(d2) => {
                        let o2 = match self.get_operand(d2, e.mnemonic) {
                            Ok(o) => o,
                            Err(x) => return Err(x),
                        };
                        Ok([o1, o2])
                    },
                }
            },
        }
    }

    /// Resolves the operands of an entry and executes it.
    fn run_entry(&mut self, e: OpcodeEntry) -> (r: Result<(), CpuError>)
        requires
            old(self).wf(),
        ensures
            final(self).wf(),
            (r, final(self)@) == run_entry_spec(e, old(self)@),
    {
        let ops = match self.get_operands(e) {
            Ok(ops) => ops,
            Err(x) => return Err(x),
        };
        let instr = e.mnemonic;
        let r = instr.match_instruction(&mut self.registers, &mut self.memory, &ops);
        if r.is_ok() {
            match instr {
                Instruction::DI => crate::instructions::di(&mut self.ime),
                Instruction::EI | Instruction::RETI => crate::instructions::ei(&mut self.ime),
                Instruction::HALT => self.halted = true,
                _ => {},
            }
        }
        r
    }

    /// Decodes the opcode byte `op` at PC and runs it; an opcode without an
    /// entry is refused before PC moves.
    fn execute_instruction(&mut self, op: u8) -> (r: Result<(), CpuError>)
        requires
            old(self).wf(),
        ensures
            final(self).wf(),
            (r, final(self)@) == dispatch_spec(op, old(self)@),
    {
        match decode_unprefixed(op) {
            None => Err(CpuError::UnknownOpcode(op)),
            Some(e) => {
                self.registers.pc = self.registers.pc.wrapping_add(1);
                assert(self@ == fetch_spec(old(self)@).1);
                if e.mnemonic == Instruction::PREFIX {
                    self.execute_prefixed_instruction()
                } else {
                    self.run_entry(e)
                }
            },
        }
    }

    /// Fetches the byte after the 0xCB prefix and runs its CB-table entry.
    fn execute_prefixed_instruction(&mut self) -> (r: Result<(), CpuError>)
        requires
            old(self).wf(),
        ensures
            final(self).wf(),
            (r, final(self)@) == prefixed_step_spec(old(self)@),
    {
        let op = self.read_byte();
        self.run_entry(decode_prefixed(op))
    }

    /// Executes one instruction; a halted core does nothing. An opcode without
    /// a table entry is reported as an error, and the core is left exactly as
    /// it was.
    pub fn step(&mut self) -> (r: Result<(), CpuError>)
        requires
            old(self).wf(),
        ensures
            final(self).wf(),
            (r, final(self)@) == step_spec(old(self)@),
    {
        if self.halted {
            return Ok(());
        }
        let opcode = self.memory.read_rom(self.registers.pc);
        self.execute_instruction(opcode)
    }

    /// The table entry of the instruction at PC, looked up without executing
    /// it or changing any state: the same memory and PC always give the same
    /// entry.
    pub fn decode_at(&self) -> (r: Result<OpcodeEntry, CpuError>)
        requires
            self.wf(),
        ensures
            r == decode_at_spec(self@),
    {
        let pc = self.registers.pc;
        let op = self.memory.read_rom(pc);
        match decode_unprefixed(op) {
            None => Err(CpuError::UnknownOpcode(op)),
            Some(e) => if e.mnemonic == Instruction::PREFIX {
                Ok(decode_prefixed(self.memory.read_rom(pc.wrapping_add(1))))
            } else {
                Ok(e)
            },
        }
    }
}

} // verus!
