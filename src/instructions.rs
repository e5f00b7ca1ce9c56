use vstd::prelude::*;

use crate::alu::{
    add16, add8, and8, bit_mask, daa8, dec8, inc8, or8, rl8, rlc8, rr8, rrc8, sla8, spec_add16,
    spec_add8, spec_and8, spec_bit, spec_daa, spec_dec8, spec_inc8, spec_or8, spec_res, spec_rl,
    spec_rlc, spec_rr, spec_rrc, spec_set, spec_sla, spec_sra, spec_srl, spec_sub16, spec_sub8,
    spec_swap, spec_xor8, sra8, srl8, sub16, sub8, swap8, xor8,
};
use crate::error::CpuError;
use crate::opcodes::Instruction;
use crate::mmu::{lemma_word_write_then_read, lemma_write_then_read, next_addr, MemoryView, MMU};
use crate::ppu::test_bit;
use crate::registers::{Flag, FlagNames, RegisterNames, Registers};

verus! {

/// A resolved operand of one instruction.
#[derive(Copy, Clone, Debug, PartialEq, Eq, Structural)]
pub enum Operand {
    /// A register, read or written directly.
    Register(RegisterNames),
    /// A memory address.
    Memory(u16),
    /// An eight-bit immediate value.
    Immediate(u8),
    /// A sixteen-bit immediate value.
    Immediate16(u16),
    /// A branch condition.
    Flag(FlagNames),
    /// No operand.
    NIL,
}

/// What an operation yields: its result, then the register file and the bus after it.
pub type Outcome = (Result<(), CpuError>, Registers, MemoryView);

/// The outcome of an operation that failed with `e` and changed nothing.
pub open spec fn failed(e: CpuError, regs: Registers, mem: MemoryView) -> Outcome {
    (Err(e), regs, mem)
}

/// The outcome of an operation that succeeded.
pub open spec fn done(regs: Registers, mem: MemoryView) -> Outcome {
    (Ok(()), regs, mem)
}

/// `v` as a signed displacement.
pub open spec fn signed8(v: u8) -> int {
    if v < 128 {
        v as int
    } else {
        v - 256
    }
}

/// `x` modulo 2^16.
pub open spec fn wrap16(x: int) -> u16 {
    (x % 65536) as u16
}

impl Operand {
    /// The operand's width in bits: registers A-L, eight-bit immediates and
    /// addresses up to 0xFF are eight bits; pairs, sixteen-bit immediates,
    /// higher addresses and conditions are sixteen; no operand is zero.
    pub open spec fn bit_length(self) -> u8 {
        match self {
            Operand::Register(r) => if r.is_8bit() {
                8
            } else {
                16
            },
            Operand::Memory(a) => if a > 255 {
                16
            } else {
                8
            },
            Operand::Immediate(_) => 8,
            Operand::Immediate16(_) => 16,
            Operand::Flag(_) => 16,
            Operand::NIL => 0,
        }
    }

    /// Whether the operand is an eight-bit register.
    pub open spec fn is_register8(self) -> bool {
        match self {
            Operand::Register(r) => r.is_8bit(),
            _ => false,
        }
    }

    /// Whether the operand is a register pair (or SP, PC).
    pub open spec fn is_register16(self) -> bool {
        match self {
            Operand::Register(r) => !r.is_8bit(),
            _ => false,
        }
    }

    /// Why the operand cannot be read as a byte, if it cannot.
    pub open spec fn read8_error(self) -> Option<CpuError> {
        match self {
            Operand::Register(r) => if r.is_8bit() {
                None
            } else {
                Some(CpuError::InvalidOperandWidth(8, 16))
            },
            Operand::Immediate16(_) => Some(CpuError::InvalidOperandWidth(8, 16)),
            Operand::NIL => Some(CpuError::InvalidOperandWidth(8, 0)),
            _ => None,
        }
    }

    /// Why a byte cannot be stored to the operand, if it cannot.
    pub open spec fn write8_error(self) -> Option<CpuError> {
        match self {
            Operand::Register(r) => if r.is_8bit() {
                None
            } else {
                Some(CpuError::InvalidOperandWidth(8, 16))
            },
            Operand::Memory(_) => None,
            _ => Some(CpuError::InvalidOperand(self)),
        }
    }

    /// Why the operand cannot be read as a word, if it cannot.
    pub open spec fn read16_error(self) -> Option<CpuError> {
        match self {
            Operand::Register(r) => if r.is_8bit() {
                Some(CpuError::InvalidOperandWidth(16, 8))
            } else {
                None
            },
            Operand::Immediate(_) => Some(CpuError::InvalidOperandWidth(16, 8)),
            Operand::Flag(_) => Some(CpuError::InvalidOperand(self)),
            Operand::NIL => Some(CpuError::InvalidOperandWidth(16, 0)),
            _ => None,
        }
    }

    /// Why a word cannot be stored to the operand, if it cannot.
    pub open spec fn write16_error(self) -> Option<CpuError> {
        match self {
            Operand::Register(r) => if r.is_8bit() {
                Some(CpuError::InvalidOperandWidth(16, 8))
            } else {
                None
            },
            Operand::Memory(_) => None,
            _ => Some(CpuError::InvalidOperand(self)),
        }
    }

    /// The byte the operand reads as; a condition reads as 1 or 0.
    pub open spec fn value8(self, regs: Registers, mem: MemoryView) -> u8 {
        match self {
            Operand::Register(r) => regs.get8(r),
            Operand::Memory(a) => mem.read(a),
            Operand::Immediate(v) => v,
            Operand::Flag(f) => if regs.flag_value(f) {
                1
            } else {
                0
            },
            _ => 0,
        }
    }

    /// The word the operand reads as; memory reads a little-endian word.
    pub open spec fn value16(self, regs: Registers, mem: MemoryView) -> u16 {
        match self {
            Operand::Register(r) => regs.get16(r),
            Operand::Memory(a) => mem.read_word(a),
            Operand::Immediate16(v) => v,
            _ => 0,
        }
    }

    /// The state after the byte `v` is stored to the operand.
    pub open spec fn store8(self, regs: Registers, mem: MemoryView, v: u8) -> (Registers, MemoryView) {
        match self {
            Operand::Register(r) => (regs.with8(r, v), mem),
            Operand::Memory(a) => (regs, mem.write(a, v)),
            _ => (regs, mem),
        }
    }

    /// The state after the word `v` is stored to the operand.
    pub open spec fn store16(self, regs: Registers, mem: MemoryView, v: u16) -> (
        Registers,
        MemoryView,
    ) {
        match self {
            Operand::Register(r) => (regs.with16(r, v), mem),
            Operand::Memory(a) => (regs, mem.write_word(a, v)),
            _ => (regs, mem),
        }
    }

    /// The outcome of storing the byte `v` to the operand.
    pub open spec fn write8_outcome(self, regs: Registers, mem: MemoryView, v: u8) -> Outcome {
        match self.write8_error() {
            Some(e) => failed(e, regs, mem),
            None => {
                let (r2, m2) = self.store8(regs, mem, v);
                done(r2, m2)
            },
        }
    }

    /// The outcome of storing the word `v` to the operand.
    pub open spec fn write16_outcome(self, regs: Registers, mem: MemoryView, v: u16) -> Outcome {
        match self.write16_error() {
            Some(e) => failed(e, regs, mem),
            None => {
                let (r2, m2) = self.store16(regs, mem, v);
                done(r2, m2)
            },
        }
    }

    pub fn get_bit_length(&self) -> (r: u8)
        ensures
            r == self.bit_length(),
    {
        match self {
            Operand::Register(reg) => if reg.is_byte_register() {
                8
            } else {
                16
            },
            Operand::Memory(a) => if *a > 255 {
                16
            } else {
                8
            },
            Operand::Immediate(_) => 8,
            Operand::Immediate16(_) => 16,
            Operand::Flag(_) => 16,
            Operand::NIL => 0,
        }
    }

    /// Reads the operand as a byte.
    pub fn read(&self, registers: &Registers, memory: &MMU) -> (r: Result<u8, CpuError>)
        requires
            memory.wf(),
        ensures
            r == match self.read8_error() {
                Some(e) => Err(e),
                None => Ok(self.value8(*registers, memory@)),
            },
    {
        match self {
            Operand::Register(reg) => registers.get_register_value_8(*reg),
            Operand::Memory(addr) => Ok(memory.read(*addr)),
            Operand::Immediate(value) => Ok(*value),
            Operand::Flag(flag) => Ok(
                if registers.get_flag(flag) {
                    1
                } else {
                    0
                },
            ),
            Operand::Immediate16(_) => Err(CpuError::InvalidOperandWidth(8, 16)),
            Operand::NIL => Err(CpuError::InvalidOperandWidth(8, 0)),
        }
    }

    /// Whether a byte can be stored to the operand.
    pub fn check_write8(&self) -> (r: Option<CpuError>)
        ensures
            r == self.write8_error(),
    {
        match self {
            Operand::Register(reg) => if reg.is_byte_register() {
                None
            } else {
                Some(CpuError::InvalidOperandWidth(8, 16))
            },
            Operand::Memory(_) => None,
            _ => Some(CpuError::InvalidOperand(*self)),
        }
    }

    /// Whether a word can be stored to the operand.
    pub fn check_write16(&self) -> (r: Option<CpuError>)
        ensures
            r == self.write16_error(),
    {
        match self {
            Operand::Register(reg) => if reg.is_byte_register() {
                Some(CpuError::InvalidOperandWidth(16, 8))
            } else {
                None
            },
            Operand::Memory(_) => None,
            _ => Some(CpuError::InvalidOperand(*self)),
        }
    }

    /// Stores a byte to the operand.
    pub fn write(&self, value: u8, registers: &mut Registers, memory: &mut MMU) -> (r: Result<
        (),
        CpuError,
    >)
        requires
            old(memory).wf(),
        ensures
            final(memory).wf(),
            (r, *final(registers), final(memory)@) == self.write8_outcome(
                *old(registers),
                old(memory)@,
                value,
            ),
    {
        match self {
            Operand::Register(reg) => registers.set_register_value_8(*reg, value),
            Operand::Memory(addr) => {
                memory.write(*addr, value);
                Ok(())
            },
            _ => Err(CpuError::InvalidOperand(*self)),
        }
    }

    /// Stores a word to the operand; memory takes a little-endian word.
    pub fn write_u16(&self, value: u16, registers: &mut Registers, memory: &mut MMU) -> (r: Result<
        (),
        CpuError,
    >)
        requires
            old(memory).wf(),
        ensures
            final(memory).wf(),
            (r, *final(registers), final(memory)@) == self.write16_outcome(
                *old(registers),
                old(memory)@,
                value,
            ),
    {
        match self {
            Operand::Register(reg) => registers.set_register_value_16(*reg, value),
            Operand::Memory(addr) => {
                memory.write_word(*addr, value);
                Ok(())
            },
            _ => Err(CpuError::InvalidOperand(*self)),
        }
    }

    /// Reads the operand as a word; memory reads a little-endian word.
    pub fn read_16(&self, registers: &Registers, memory: &MMU) -> (r: Result<u16, CpuError>)
        requires
            memory.wf(),
        ensures
            r == match self.read16_error() {
                Some(e) => Err(e),
                None => Ok(self.value16(*registers, memory@)),
            },
    {
        match self {
            Operand::Register(reg) => registers.get_register_value_16(*reg),
            Operand::Immediate16(value) => Ok(*value),
            Operand::Memory(addr) => Ok(memory.read_word(*addr)),
            Operand::Immediate(_) => Err(CpuError::InvalidOperandWidth(16, 8)),
            Operand::Flag(_) => Err(CpuError::InvalidOperand(*self)),
            Operand::NIL => Err(CpuError::InvalidOperandWidth(16, 0)),
        }
    }
}

/// The two-operand eight-bit ALU operations.
#[derive(Copy, Clone, Debug, PartialEq, Eq, Structural)]
pub enum BinaryOp {
    Add,
    Adc,
    Sub,
    Sbc,
    And,
    Or,
    Xor,
    Cp,
}

/// Result and flags of a two-operand eight-bit ALU operation.
pub open spec fn spec_binary8(op: BinaryOp, a: u8, b: u8, f: Flag) -> (u8, Flag) {
    match op {
        BinaryOp::Add => spec_add8(a, b, false),
        BinaryOp::Adc => spec_add8(a, b, f.c),
        BinaryOp::Sub => spec_sub8(a, b, false),
        BinaryOp::Sbc => spec_sub8(a, b, f.c),
        BinaryOp::And => spec_and8(a, b),
        BinaryOp::Or => spec_or8(a, b),
        BinaryOp::Xor => spec_xor8(a, b),
        BinaryOp::Cp => spec_sub8(a, b, false),
    }
}

/// The outcome of a two-operand eight-bit ALU operation: both operands are
/// read, the flags set, and the result stored to the first operand (but for
/// CP, which sets the flags only).
pub open spec fn binary8_outcome(
    op: BinaryOp,
    op1: Operand,
    op2: Operand,
    regs: Registers,
    mem: MemoryView,
) -> Outcome {
    match op1.read8_error() {
        Some(e) => failed(e, regs, mem),
        None => match op2.read8_error() {
            Some(e) => failed(e, regs, mem),
            None => {
                let (res, fl) = spec_binary8(op, op1.value8(regs, mem), op2.value8(regs, mem), regs.flag);
                let flagged = Registers { flag: fl, ..regs };
                if op == BinaryOp::Cp {
                    done(flagged, mem)
                } else {
                    match op1.write8_error() {
                        Some(e) => failed(e, regs, mem),
                        None => {
                            let (r2, m2) = op1.store8(flagged, mem, res);
                            done(r2, m2)
                        },
                    }
                }
            },
        },
    }
}

fn binary8(op: BinaryOp, registers: &mut Registers, memory: &mut MMU, operand1: Operand, operand2: Operand) -> (r: Result<(), CpuError>)
    requires
        old(memory).wf(),
    ensures
        final(memory).wf(),
        (r, *final(registers), final(memory)@) == binary8_outcome(
            op,
            operand1,
            operand2,
            *old(registers),
            old(memory)@,
        ),
{
    let a = match operand1.read(registers, memory) {
        Ok(v) => v,
        Err(e) => return Err(e),
    };
    let b = match operand2.read(registers, memory) {
        Ok(v) => v,
        Err(e) => return Err(e),
    };
    let (res, fl) = match op {
        BinaryOp::Add => add8(a, b, false),
        BinaryOp::Adc => add8(a, b, registers.flag.c),
        BinaryOp::Sub => sub8(a, b, false),
        BinaryOp::Sbc => sub8(a, b, registers.flag.c),
        BinaryOp::And => and8(a, b),
        BinaryOp::Or => or8(a, b),
        BinaryOp::Xor => xor8(a, b),
        BinaryOp::Cp => sub8(a, b, false),
    };
    if op == BinaryOp::Cp {
        registers.flag = fl;
        return Ok(());
    }
    if let Some(e) = operand1.check_write8() {
        return Err(e);
    }
    registers.flag = fl;
    operand1.write(res, registers, memory)
}

/// ADD: the first operand plus the second.
pub fn add_8bit(registers: &mut Registers, memory: &mut MMU, operand1: Operand, operand2: Operand) -> (r: Result<(), CpuError>)
    requires
        old(memory).wf(),
    ensures
        final(memory).wf(),
        (r, *final(registers), final(memory)@) == binary8_outcome(
            BinaryOp::Add,
            operand1,
            operand2,
            *old(registers),
            old(memory)@,
        ),
{
    binary8(BinaryOp::Add, registers, memory, operand1, operand2)
}

/// ADC: the first operand plus the second plus the carry.
pub fn adc_8bit(registers: &mut Registers, memory: &mut MMU, operand1: Operand, operand2: Operand) -> (r: Result<(), CpuError>)
    requires
        old(memory).wf(),
    ensures
        final(memory).wf(),
        (r, *final(registers), final(memory)@) == binary8_outcome(
            BinaryOp::Adc,
            operand1,
            operand2,
            *old(registers),
            old(memory)@,
        ),
{
    binary8(BinaryOp::Adc, registers, memory, operand1, operand2)
}

/// SUB: the first operand minus the second.
pub fn sub_8bit(registers: &mut Registers, memory: &mut MMU, operand1: Operand, operand2: Operand) -> (r: Result<(), CpuError>)
    requires
        old(memory).wf(),
    ensures
        final(memory).wf(),
        (r, *final(registers), final(memory)@) == binary8_outcome(
            BinaryOp::Sub,
            operand1,
            operand2,
            *old(registers),
            old(memory)@,
        ),
{
    binary8(BinaryOp::Sub, registers, memory, operand1, operand2)
}

/// SBC: the first operand minus the second minus the carry.
pub fn sbc_8bit(registers: &mut Registers, memory: &mut MMU, operand1: Operand, operand2: Operand) -> (r: Result<(), CpuError>)
    requires
        old(memory).wf(),
    ensures
        final(memory).wf(),
        (r, *final(registers), final(memory)@) == binary8_outcome(
            BinaryOp::Sbc,
            operand1,
            operand2,
            *old(registers),
            old(memory)@,
        ),
{
    binary8(BinaryOp::Sbc, registers, memory, operand1, operand2)
}

/// AND of the two operands.
pub fn and_8bit(registers: &mut Registers, memory: &mut MMU, operand1: Operand, operand2: Operand) -> (r: Result<(), CpuError>)
    requires
        old(memory).wf(),
    ensures
        final(memory).wf(),
        (r, *final(registers), final(memory)@) == binary8_outcome(
            BinaryOp::And,
            operand1,
            operand2,
            *old(registers),
            old(memory)@,
        ),
{
    binary8(BinaryOp::And, registers, memory, operand1, operand2)
}

/// OR of the two operands.
pub fn or_8bit(registers: &mut Registers, memory: &mut MMU, operand1: Operand, operand2: Operand) -> (r: Result<(), CpuError>)
    requires
        old(memory).wf(),
    ensures
        final(memory).wf(),
        (r, *final(registers), final(memory)@) == binary8_outcome(
            BinaryOp::Or,
            operand1,
            operand2,
            *old(registers),
            old(memory)@,
        ),
{
    binary8(BinaryOp::Or, registers, memory, operand1, operand2)
}

/// XOR of the two operands.
pub fn xor_8bit(registers: &mut Registers, memory: &mut MMU, operand1: Operand, operand2: Operand) -> (r: Result<(), CpuError>)
    requires
        old(memory).wf(),
    ensures
        final(memory).wf(),
        (r, *final(registers), final(memory)@) == binary8_outcome(
            BinaryOp::Xor,
            operand1,
            operand2,
            *old(registers),
            old(memory)@,
        ),
{
    binary8(BinaryOp::Xor, registers, memory, operand1, operand2)
}

/// CP: the flags of a subtraction, no operand written.
pub fn cp_8bit(registers: &mut Registers, memory: &mut MMU, operand1: Operand, operand2: Operand) -> (r: Result<(), CpuError>)
    requires
        old(memory).wf(),
    ensures
        final(memory).wf(),
        (r, *final(registers), final(memory)@) == binary8_outcome(
            BinaryOp::Cp,
            operand1,
            operand2,
            *old(registers),
            old(memory)@,
        ),
{
    binary8(BinaryOp::Cp, registers, memory, operand1, operand2)
}

/// The one-operand eight-bit operations that write their operand back.
#[derive(Copy, Clone, Debug, PartialEq, Eq, Structural)]
pub enum UnaryOp {
    Inc,
    Dec,
    Rlc,
    Rrc,
    Rl,
    Rr,
    Sla,
    Sra,
    Swap,
    Srl,
}

/// Result and flags of a one-operand eight-bit operation.
pub open spec fn spec_unary8(op: UnaryOp, v: u8, f: Flag) -> (u8, Flag) {
    match op {
        UnaryOp::Inc => spec_inc8(v, f),
        UnaryOp::Dec => spec_dec8(v, f),
        UnaryOp::Rlc => spec_rlc(v),
        UnaryOp::Rrc => spec_rrc(v),
        UnaryOp::Rl => spec_rl(v, f),
        UnaryOp::Rr => spec_rr(v, f),
        UnaryOp::Sla => spec_sla(v),
        UnaryOp::Sra => spec_sra(v),
        UnaryOp::Swap => spec_swap(v),
        UnaryOp::Srl => spec_srl(v),
    }
}

/// The outcome of a one-operand operation: the operand is read, the flags
/// set and the result written back.
pub open spec fn unary8_outcome(op: UnaryOp, operand: Operand, regs: Registers, mem: MemoryView) -> Outcome {
    match operand.read8_error() {
        Some(e) => failed(e, regs, mem),
        None => match operand.write8_error() {
            Some(e) => failed(e, regs, mem),
            None => {
                let (res, fl) = spec_unary8(op, operand.value8(regs, mem), regs.flag);
                let (r2, m2) = operand.store8(Registers { flag: fl, ..regs }, mem, res);
                done(r2, m2)
            },
        },
    }
}

fn unary8(op: UnaryOp, registers: &mut Registers, memory: &mut MMU, operand: Operand) -> (r: Result<(), CpuError>)
    requires
        old(memory).wf(),
    ensures
        final(memory).wf(),
        (r, *final(registers), final(memory)@) == unary8_outcome(op, operand, *old(registers), old(memory)@),
{
    let v = match operand.read(registers, memory) {
        Ok(v) => v,
        Err(e) => return Err(e),
    };
    if let Some(e) = operand.check_write8() {
        return Err(e);
    }
    let f = registers.flag;
    let (res, fl) = match op {
        UnaryOp::Inc => inc8(v, f),
        UnaryOp::Dec => dec8(v, f),
        UnaryOp::Rlc => rlc8(v),
        UnaryOp::Rrc => rrc8(v),
        UnaryOp::Rl => rl8(v, f),
        UnaryOp::Rr => rr8(v, f),
        UnaryOp::Sla => sla8(v),
        UnaryOp::Sra => sra8(v),
        UnaryOp::Swap => swap8(v),
        UnaryOp::Srl => srl8(v),
    };
    registers.flag = fl;
    operand.write(res, registers, memory)
}

/// INC of a byte.
pub fn inc_8bit(registers: &mut Registers, memory: &mut MMU, operand: Operand) -> (r: Result<(), CpuError>)
    requires
        old(memory).wf(),
    ensures
        final(memory).wf(),
        (r, *final(registers), final(memory)@) == unary8_outcome(UnaryOp::Inc, operand, *old(registers), old(memory)@),
{
    unary8(UnaryOp::Inc, registers, memory, operand)
}

/// DEC of a byte.
pub fn dec_8bit(registers: &mut Registers, memory: &mut MMU, operand: Operand) -> (r: Result<(), CpuError>)
    requires
        old(memory).wf(),
    ensures
        final(memory).wf(),
        (r, *final(registers), final(memory)@) == unary8_outcome(UnaryOp::Dec, operand, *old(registers), old(memory)@),
{
    unary8(UnaryOp::Dec, registers, memory, operand)
}

/// Rotate left circular.
pub fn rlc(registers: &mut Registers, memory: &mut MMU, operand: Operand) -> (r: Result<(), CpuError>)
    requires
        old(memory).wf(),
    ensures
        final(memory).wf(),
        (r, *final(registers), final(memory)@) == unary8_outcome(UnaryOp::Rlc, operand, *old(registers), old(memory)@),
{
    unary8(UnaryOp::Rlc, registers, memory, operand)
}

/// Rotate right circular.
pub fn rrc(registers: &mut Registers, memory: &mut MMU, operand: Operand) -> (r: Result<(), CpuError>)
    requires
        old(memory).wf(),
    ensures
        final(memory).wf(),
        (r, *final(registers), final(memory)@) == unary8_outcome(UnaryOp::Rrc, operand, *old(registers), old(memory)@),
{
    unary8(UnaryOp::Rrc, registers, memory, operand)
}

/// Rotate left through the carry.
pub fn rl(registers: &mut Registers, memory: &mut MMU, operand: Operand) -> (r: Result<(), CpuError>)
    requires
        old(memory).wf(),
    ensures
        final(memory).wf(),
        (r, *final(registers), final(memory)@) == unary8_outcome(UnaryOp::Rl, operand, *old(registers), old(memory)@),
{
    unary8(UnaryOp::Rl, registers, memory, operand)
}

/// Rotate right through the carry.
pub fn rr(registers: &mut Registers, memory: &mut MMU, operand: Operand) -> (r: Result<(), CpuError>)
    requires
        old(memory).wf(),
    ensures
        final(memory).wf(),
        (r, *final(registers), final(memory)@) == unary8_outcome(UnaryOp::Rr, operand, *old(registers), old(memory)@),
{
    unary8(UnaryOp::Rr, registers, memory, operand)
}

/// Shift left arithmetic.
pub fn sla(registers: &mut Registers, memory: &mut MMU, operand: Operand) -> (r: Result<(), CpuError>)
    requires
        old(memory).wf(),
    ensures
        final(memory).wf(),
        (r, *final(registers), final(memory)@) == unary8_outcome(UnaryOp::Sla, operand, *old(registers), old(memory)@),
{
    unary8(UnaryOp::Sla, registers, memory, operand)
}

/// Shift right arithmetic.
pub fn sra(registers: &mut Registers, memory: &mut MMU, operand: Operand) -> (r: Result<(), CpuError>)
    requires
        old(memory).wf(),
    ensures
        final(memory).wf(),
        (r, *final(registers), final(memory)@) == unary8_outcome(UnaryOp::Sra, operand, *old(registers), old(memory)@),
{
    unary8(UnaryOp::Sra, registers, memory, operand)
}

/// Swap nibbles.
pub fn swap(registers: &mut Registers, memory: &mut MMU, operand: Operand) -> (r: Result<(), CpuError>)
    requires
        old(memory).wf(),
    ensures
        final(memory).wf(),
        (r, *final(registers), final(memory)@) == unary8_outcome(UnaryOp::Swap, operand, *old(registers), old(memory)@),
{
    unary8(UnaryOp::Swap, registers, memory, operand)
}

/// Shift right logical.
pub fn srl(registers: &mut Registers, memory: &mut MMU, operand: Operand) -> (r: Result<(), CpuError>)
    requires
        old(memory).wf(),
    ensures
        final(memory).wf(),
        (r, *final(registers), final(memory)@) == unary8_outcome(UnaryOp::Srl, operand, *old(registers), old(memory)@),
{
    unary8(UnaryOp::Srl, registers, memory, operand)
}

/// The outcome of BIT n: the operand is read and the flags set, nothing written.
pub open spec fn bit_outcome(operand: Operand, n: u8, regs: Registers, mem: MemoryView) -> Outcome {
    if n >= 8 {
        failed(CpuError::InvalidOperand(Operand::Immediate(n)), regs, mem)
    } else {
        match operand.read8_error() {
            Some(e) => failed(e, regs, mem),
            None => done(Registers { flag: spec_bit(operand.value8(regs, mem), n, regs.flag), ..regs }, mem),
        }
    }
}

/// The outcome of SET n (`set`) or RES n: no flags change.
pub open spec fn set_res_outcome(operand: Operand, n: u8, set: bool, regs: Registers, mem: MemoryView) -> Outcome {
    if n >= 8 {
        failed(CpuError::InvalidOperand(Operand::Immediate(n)), regs, mem)
    } else {
        match operand.read8_error() {
            Some(e) => failed(e, regs, mem),
            None => {
                let v = operand.value8(regs, mem);
                operand.write8_outcome(regs, mem, if set { spec_set(v, n) } else { spec_res(v, n) })
            },
        }
    }
}

/// BIT n: Z when bit `index` of the operand is clear; N clear, H set, C kept.
pub fn bit(registers: &mut Registers, memory: &mut MMU, operand: Operand, index: u8) -> (r: Result<(), CpuError>)
    requires
        old(memory).wf(),
    ensures
        final(memory).wf(),
        (r, *final(registers), final(memory)@) == bit_outcome(operand, index, *old(registers), old(memory)@),
{
    if index >= 8 {
        return Err(CpuError::InvalidOperand(Operand::Immediate(index)));
    }
    let value = match operand.read(registers, memory) {
        Ok(v) => v,
        Err(e) => return Err(e),
    };
    registers.flag = Flag { z: !test_bit(value, index), n: false, h: true, c: registers.flag.c };
    Ok(())
}

/// SET n: sets bit `index` of the operand.
pub fn set(registers: &mut Registers, memory: &mut MMU, operand: Operand, index: u8) -> (r: Result<(), CpuError>)
    requires
        old(memory).wf(),
    ensures
        final(memory).wf(),
        (r, *final(registers), final(memory)@) == set_res_outcome(operand, index, true, *old(registers), old(memory)@),
{
    if index >= 8 {
        return Err(CpuError::InvalidOperand(Operand::Immediate(index)));
    }
    let value = match operand.read(registers, memory) {
        Ok(v) => v,
        Err(e) => return Err(e),
    };
    proof {
        crate::alu::lemma_bit_bounds(value, index);
    }
    let result = if test_bit(value, index) {
        value
    } else {
        value + bit_mask(index)
    };
    operand.write(result, registers, memory)
}

/// RES n: clears bit `index` of the operand.
pub fn res(registers: &mut Registers, memory: &mut MMU, operand: Operand, index: u8) -> (r: Result<(), CpuError>)
    requires
        old(memory).wf(),
    ensures
        final(memory).wf(),
        (r, *final(registers), final(memory)@) == set_res_outcome(operand, index, false, *old(registers), old(memory)@),
{
    if index >= 8 {
        return Err(CpuError::InvalidOperand(Operand::Immediate(index)));
    }
    let value = match operand.read(registers, memory) {
        Ok(v) => v,
        Err(e) => return Err(e),
    };
    proof {
        crate::alu::lemma_bit_bounds(value, index);
    }
    let result = if test_bit(value, index) {
        value - bit_mask(index)
    } else {
        value
    };
    operand.write(result, registers, memory)
}

/// The outcome of adding `delta` (1 or -1) to a sixteen-bit operand; no flags change.
pub open spec fn step16_outcome(operand: Operand, delta: int, regs: Registers, mem: MemoryView) -> Outcome {
    match operand.read16_error() {
        Some(e) => failed(e, regs, mem),
        None => operand.write16_outcome(regs, mem, wrap16(operand.value16(regs, mem) + delta)),
    }
}

/// INC of a register pair. Flags are not affected, as on the hardware.
pub fn inc_16bit(registers: &mut Registers, operand: Operand, memory: &mut MMU) -> (r: Result<(), CpuError>)
    requires
        old(memory).wf(),
    ensures
        final(memory).wf(),
        (r, *final(registers), final(memory)@) == step16_outcome(operand, 1, *old(registers), old(memory)@),
{
    let value = match operand.read_16(registers, memory) {
        Ok(v) => v,
        Err(e) => return Err(e),
    };
    operand.write_u16(value.wrapping_add(1), registers, memory)
}

/// DEC of a register pair. Flags are not affected, as on the hardware.
pub fn dec_16bit(registers: &mut Registers, operand: Operand, memory: &mut MMU) -> (r: Result<(), CpuError>)
    requires
        old(memory).wf(),
    ensures
        final(memory).wf(),
        (r, *final(registers), final(memory)@) == step16_outcome(operand, -1, *old(registers), old(memory)@),
{
    let value = match operand.read_16(registers, memory) {
        Ok(v) => v,
        Err(e) => return Err(e),
    };
    operand.write_u16(value.wrapping_sub(1), registers, memory)
}

/// The outcome of a sixteen-bit addition (`add`) or subtraction into the first operand.
pub open spec fn arith16_outcome(add: bool, op1: Operand, op2: Operand, regs: Registers, mem: MemoryView) -> Outcome {
    match op1.read16_error() {
        Some(e) => failed(e, regs, mem),
        None => match op2.read16_error() {
            Some(e) => failed(e, regs, mem),
            None => match op1.write16_error() {
                Some(e) => failed(e, regs, mem),
                None => {
                    let a = op1.value16(regs, mem);
                    let b = op2.value16(regs, mem);
                    let (res, fl) = if add {
                        spec_add16(a, b, regs.flag)
                    } else {
                        spec_sub16(a, b)
                    };
                    let (r2, m2) = op1.store16(Registers { flag: fl, ..regs }, mem, res);
                    done(r2, m2)
                },
            },
        },
    }
}

fn arith16(add: bool, registers: &mut Registers, operand1: Operand, operand2: Operand, memory: &mut MMU) -> (r: Result<(), CpuError>)
    requires
        old(memory).wf(),
    ensures
        final(memory).wf(),
        (r, *final(registers), final(memory)@) == arith16_outcome(add, operand1, operand2, *old(registers), old(memory)@),
{
    let a = match operand1.read_16(registers, memory) {
        Ok(v) => v,
        Err(e) => return Err(e),
    };
    let b = match operand2.read_16(registers, memory) {
        Ok(v) => v,
        Err(e) => return Err(e),
    };
    if let Some(e) = operand1.check_write16() {
        return Err(e);
    }
    let (res, fl) = if add {
        add16(a, b, registers.flag)
    } else {
        sub16(a, b)
    };
    registers.flag = fl;
    operand1.write_u16(res, registers, memory)
}

/// ADD rr,rr: Z kept, N clear, H from bit 11, C from bit 15.
pub fn add_16bit(registers: &mut Registers, operand1: Operand, operand2: Operand, memory: &mut MMU) -> (r: Result<(), CpuError>)
    requires
        old(memory).wf(),
    ensures
        final(memory).wf(),
        (r, *final(registers), final(memory)@) == arith16_outcome(true, operand1, operand2, *old(registers), old(memory)@),
{
    arith16(true, registers, operand1, operand2, memory)
}

/// Sixteen-bit subtraction into the first operand.
pub fn sub_16bit(registers: &mut Registers, operand1: Operand, operand2: Operand, memory: &mut MMU) -> (r: Result<(), CpuError>)
    requires
        old(memory).wf(),
    ensures
        final(memory).wf(),
        (r, *final(registers), final(memory)@) == arith16_outcome(false, operand1, operand2, *old(registers), old(memory)@),
{
    arith16(false, registers, operand1, operand2, memory)
}

/// Whether LD moves a byte: either side is an eight-bit register, or the
/// source an eight-bit immediate. Otherwise it moves a word.
pub open spec fn is_byte_move(op1: Operand, op2: Operand) -> bool {
    op1.is_register8() || op2.is_register8() || op2 is Immediate
}

/// The outcome of LD: the second operand copied to the first.
pub open spec fn ld_outcome(op1: Operand, op2: Operand, regs: Registers, mem: MemoryView) -> Outcome {
    if is_byte_move(op1, op2) {
        match op2.read8_error() {
            Some(e) => failed(e, regs, mem),
            None => op1.write8_outcome(regs, mem, op2.value8(regs, mem)),
        }
    } else {
        match op2.read16_error() {
            Some(e) => failed(e, regs, mem),
            None => op1.write16_outcome(regs, mem, op2.value16(regs, mem)),
        }
    }
}

/// LD: copies the second operand to the first, a byte or a word.
pub fn ld(registers: &mut Registers, operand1: Operand, operand2: Operand, memory: &mut MMU) -> (r: Result<(), CpuError>)
    requires
        old(memory).wf(),
    ensures
        final(memory).wf(),
        (r, *final(registers), final(memory)@) == ld_outcome(operand1, operand2, *old(registers), old(memory)@),
{
    let byte_move = match (operand1, operand2) {
        (Operand::Register(a), _) if a.is_byte_register() => true,
        (_, Operand::Register(b)) if b.is_byte_register() => true,
        (_, Operand::Immediate(_)) => true,
        _ => false,
    };
    if byte_move {
        let value = match operand2.read(registers, memory) {
            Ok(v) => v,
            Err(e) => return Err(e),
        };
        operand1.write(value, registers, memory)
    } else {
        let value = match operand2.read_16(registers, memory) {
            Ok(v) => v,
            Err(e) => return Err(e),
        };
        operand1.write_u16(value, registers, memory)
    }
}

/// The offset into the 0xFF00 page that an LDH operand names: an eight-bit
/// immediate, or register C.
pub open spec fn high_offset(op: Operand, regs: Registers) -> Option<u8> {
    match op {
        Operand::Immediate(n) => Some(n),
        Operand::Register(RegisterNames::C) => Some(regs.get8(RegisterNames::C)),
        _ => None,
    }
}

/// The outcome of LDH: A loaded from, or stored to, 0xFF00 plus the offset.
pub open spec fn ldh_outcome(op1: Operand, op2: Operand, regs: Registers, mem: MemoryView) -> Outcome {
    if op1 == Operand::Register(RegisterNames::A) {
        match high_offset(op2, regs) {
            Some(off) => done(regs.with8(RegisterNames::A, mem.read((0xFF00 + off) as u16)), mem),
            None => failed(CpuError::InvalidOperand(op2), regs, mem),
        }
    } else {
        match high_offset(op1, regs) {
            Some(off) => if op2 == Operand::Register(RegisterNames::A) {
                done(regs, mem.write((0xFF00 + off) as u16, regs.get8(RegisterNames::A)))
            } else {
                failed(CpuError::InvalidOperand(op2), regs, mem)
            },
            None => failed(CpuError::InvalidOperand(op1), regs, mem),
        }
    }
}

fn high_offset_of(op: Operand, registers: &Registers) -> (r: Option<u8>)
    ensures
        r == high_offset(op, *registers),
{
    match op {
        Operand::Immediate(n) => Some(n),
        Operand::Register(RegisterNames::C) => Some((registers.bc % 256) as u8),
        _ => None,
    }
}

/// LDH: `A,(a8)` and `A,(C)` load A from 0xFF00 plus the offset; `(a8),A`
/// and `(C),A` store A there.
pub fn ldh(registers: &mut Registers, operand1: Operand, operand2: Operand, memory: &mut MMU) -> (r: Result<(), CpuError>)
    requires
        old(memory).wf(),
    ensures
        final(memory).wf(),
        (r, *final(registers), final(memory)@) == ldh_outcome(operand1, operand2, *old(registers), old(memory)@),
{
    if operand1 == Operand::Register(RegisterNames::A) {
        match high_offset_of(operand2, registers) {
            Some(off) => {
                let value = memory.read(0xFF00 + off as u16);
                registers.af = value as u16 * 256 + registers.af % 256;
                Ok(())
            },
            None => Err(CpuError::InvalidOperand(operand2)),
        }
    } else {
        match high_offset_of(operand1, registers) {
            Some(off) => if operand2 == Operand::Register(RegisterNames::A) {
                memory.write(0xFF00 + off as u16, (registers.af / 256) as u8);
                Ok(())
            } else {
                Err(CpuError::InvalidOperand(operand2))
            },
            None => Err(CpuError::InvalidOperand(operand1)),
        }
    }
}

/// The outcome of JP: when the condition holds, PC takes the target.
pub open spec fn jp_outcome(operand: Operand, cond: bool, regs: Registers, mem: MemoryView) -> Outcome {
    if !cond {
        done(regs, mem)
    } else {
        match operand.read16_error() {
            Some(e) => failed(e, regs, mem),
            None => done(Registers { pc: operand.value16(regs, mem), ..regs }, mem),
        }
    }
}

pub fn jp(registers: &mut Registers, memory: &mut MMU, operand: Operand, condition: bool) -> (r: Result<(), CpuError>)
    requires
        old(memory).wf(),
    ensures
        final(memory).wf(),
        (r, *final(registers), final(memory)@) == jp_outcome(operand, condition, *old(registers), old(memory)@),
{
    if condition {
        let address = match operand.read_16(registers, memory) {
            Ok(v) => v,
            Err(e) => return Err(e),
        };
        registers.pc = address;
    }
    Ok(())
}

/// The outcome of CALL: when the condition holds, PC (already past the
/// instruction) is pushed and PC takes the target.
pub open spec fn call_outcome(operand: Operand, cond: bool, regs: Registers, mem: MemoryView) -> Outcome {
    if !cond {
        done(regs, mem)
    } else {
        match operand.read16_error() {
            Some(e) => failed(e, regs, mem),
            None => {
                let sp = wrap16(regs.sp - 2);
                done(
                    Registers { sp, pc: operand.value16(regs, mem), ..regs },
                    mem.write_word(sp, regs.pc),
                )
            },
        }
    }
}

pub fn call(registers: &mut Registers, memory: &mut MMU, operand: Operand, condition: bool) -> (r: Result<(), CpuError>)
    requires
        old(memory).wf(),
    ensures
        final(memory).wf(),
        (r, *final(registers), final(memory)@) == call_outcome(operand, condition, *old(registers), old(memory)@),
{
    if condition {
        let address = match operand.read_16(registers, memory) {
            Ok(v) => v,
            Err(e) => return Err(e),
        };
        registers.sp = registers.sp.wrapping_sub(2);
        memory.write_word(registers.sp, registers.pc);
        registers.pc = address;
    }
    Ok(())
}

/// The outcome of JR: when the condition holds, the signed displacement is
/// added to PC (already past the instruction).
pub open spec fn jr_outcome(operand: Operand, cond: bool, regs: Registers, mem: MemoryView) -> Outcome {
    if !cond {
        done(regs, mem)
    } else {
        match operand.read8_error() {
            Some(e) => failed(e, regs, mem),
            None => done(
                Registers { pc: wrap16(regs.pc + signed8(operand.value8(regs, mem))), ..regs },
                mem,
            ),
        }
    }
}

pub fn jr(registers: &mut Registers, memory: &mut MMU, operand: Operand, condition: bool) -> (r: Result<(), CpuError>)
    requires
        old(memory).wf(),
    ensures
        final(memory).wf(),
        (r, *final(registers), final(memory)@) == jr_outcome(operand, condition, *old(registers), old(memory)@),
{
    if condition {
        let offset = match operand.read(registers, memory) {
            Ok(v) => v,
            Err(e) => return Err(e),
        };
        if offset < 128 {
            registers.pc = registers.pc.wrapping_add(offset as u16);
        } else {
            registers.pc = registers.pc.wrapping_sub(256 - offset as u16);
        }
    }
    Ok(())
}

/// The state after RET: when the condition holds, PC is popped from the stack.
pub open spec fn ret_spec(regs: Registers, mem: MemoryView, cond: bool) -> Registers {
    if cond {
        Registers { pc: mem.read_word(regs.sp), sp: wrap16(regs.sp + 2), ..regs }
    } else {
        regs
    }
}

pub fn ret(registers: &mut Registers, memory: &mut MMU, cond: bool)
    requires
        old(memory).wf(),
    ensures
        final(memory).wf(),
        final(memory)@ == old(memory)@,
        *final(registers) == ret_spec(*old(registers), old(memory)@, cond),
{
    if cond {
        registers.pc = memory.read_word(registers.sp);
        registers.sp = registers.sp.wrapping_add(2);
    }
}

/// The outcome of PUSH: SP drops by two and the word is stored there.
pub open spec fn push_outcome(operand: Operand, regs: Registers, mem: MemoryView) -> Outcome {
    match operand.read16_error() {
        Some(e) => failed(e, regs, mem),
        None => {
            let sp = wrap16(regs.sp - 2);
            done(Registers { sp, ..regs }, mem.write_word(sp, operand.value16(regs, mem)))
        },
    }
}

/// The outcome of POP: the word at SP is loaded, and SP rises by two.
pub open spec fn pop_outcome(operand: Operand, regs: Registers, mem: MemoryView) -> Outcome {
    match operand.write16_error() {
        Some(e) => failed(e, regs, mem),
        None => {
            let (r2, m2) = operand.store16(
                Registers { sp: wrap16(regs.sp + 2), ..regs },
                mem,
                mem.read_word(regs.sp),
            );
            done(r2, m2)
        },
    }
}

pub fn push(registers: &mut Registers, memory: &mut MMU, operand: Operand) -> (r: Result<(), CpuError>)
    requires
        old(memory).wf(),
    ensures
        final(memory).wf(),
        (r, *final(registers), final(memory)@) == push_outcome(operand, *old(registers), old(memory)@),
{
    let value = match operand.read_16(registers, memory) {
        Ok(v) => v,
        Err(e) => return Err(e),
    };
    registers.sp = registers.sp.wrapping_sub(2);
    memory.write_word(registers.sp, value);
    Ok(())
}

pub fn pop(registers: &mut Registers, memory: &mut MMU, operand: Operand) -> (r: Result<(), CpuError>)
    requires
        old(memory).wf(),
    ensures
        final(memory).wf(),
        (r, *final(registers), final(memory)@) == pop_outcome(operand, *old(registers), old(memory)@),
{
    if let Some(e) = operand.check_write16() {
        return Err(e);
    }
    let value = memory.read_word(registers.sp);
    registers.sp = registers.sp.wrapping_add(2);
    operand.write_u16(value, registers, memory)
}

/// The register file after DAA.
pub open spec fn daa_spec(regs: Registers) -> Registers {
    let (res, fl) = spec_daa(regs.get8(RegisterNames::A), regs.flag);
    Registers { flag: fl, ..regs.with8(RegisterNames::A, res) }
}

/// The register file after CPL.
pub open spec fn cpl_spec(regs: Registers) -> Registers {
    Registers {
        flag: Flag { n: true, h: true, ..regs.flag },
        ..regs.with8(RegisterNames::A, (255 - regs.get8(RegisterNames::A)) as u8)
    }
}

/// The register file after SCF.
pub open spec fn scf_spec(regs: Registers) -> Registers {
    regs.with_flags(regs.flag.z, false, false, true)
}

/// The register file after CCF.
pub open spec fn ccf_spec(regs: Registers) -> Registers {
    regs.with_flags(regs.flag.z, false, false, !regs.flag.c)
}

/// ADD A,value on the register file alone.
pub fn add(registers: &mut Registers, value: u8)
    ensures
        ({
            let (res, fl) = spec_add8(old(registers).get8(RegisterNames::A), value, false);
            *final(registers) == (Registers { flag: fl, ..old(registers).with8(RegisterNames::A, res) })
        }),
{
    let (res, fl) = add8((registers.af / 256) as u8, value, false);
    registers.af = res as u16 * 256 + registers.af % 256;
    registers.flag = fl;
}

/// DAA: corrects A to packed BCD after an addition or subtraction.
pub fn daa(registers: &mut Registers)
    ensures
        *final(registers) == daa_spec(*old(registers)),
{
    let (res, fl) = daa8((registers.af / 256) as u8, registers.flag);
    registers.af = res as u16 * 256 + registers.af % 256;
    registers.flag = fl;
}

/// CPL: complements A; sets N and H.
pub fn cpl(registers: &mut Registers)
    ensures
        *final(registers) == cpl_spec(*old(registers)),
{
    let a = (registers.af / 256) as u8;
    registers.af = (255 - a) as u16 * 256 + registers.af % 256;
    registers.flag.n = true;
    registers.flag.h = true;
}

/// SCF: sets C; clears N and H.
pub fn scf(registers: &mut Registers)
    ensures
        *final(registers) == scf_spec(*old(registers)),
{
    registers.flag.n = false;
    registers.flag.h = false;
    registers.flag.c = true;
}

/// CCF: complements C; clears N and H.
pub fn ccf(registers: &mut Registers)
    ensures
        *final(registers) == ccf_spec(*old(registers)),
{
    registers.flag.n = false;
    registers.flag.h = false;
    registers.flag.c = !registers.flag.c;
}

/// DI: clears the interrupt master enable flag.
pub fn di(ime: &mut bool)
    ensures
        *final(ime) == false,
{
    *ime = false;
}

/// EI: sets the interrupt master enable flag.
pub fn ei(ime: &mut bool)
    ensures
        *final(ime) == true,
{
    *ime = true;
}

/// The outcome of a branch whose condition is `cond_op` (no operand: always
/// taken) and whose target is `target`.
pub open spec fn branch_outcome(
    instr: Instruction,
    cond_op: Operand,
    target: Operand,
    regs: Registers,
    mem: MemoryView,
) -> Outcome {
    match cond_op.read8_error() {
        Some(e) => failed(e, regs, mem),
        None => {
            let cond = cond_op.value8(regs, mem) == 1;
            if instr == Instruction::CALL {
                call_outcome(target, cond, regs, mem)
            } else if instr == Instruction::JP {
                jp_outcome(target, cond, regs, mem)
            } else {
                jr_outcome(target, cond, regs, mem)
            }
        },
    }
}

/// The outcome of executing one instruction on resolved operands (`NIL` where
/// it has fewer than two). ADD, INC and DEC take their sixteen-bit form on a
/// register pair. DI, EI and HALT change nothing here: their effect is on the
/// dispatcher's own state.
pub open spec fn instruction_outcome(
    instr: Instruction,
    op1: Operand,
    op2: Operand,
    regs: Registers,
    mem: MemoryView,
) -> Outcome {
    match instr {
        Instruction::NOP | Instruction::DI | Instruction::EI | Instruction::HALT => done(regs, mem),
        Instruction::ADD => if op1.is_register16() {
            arith16_outcome(true, op1, op2, regs, mem)
        } else {
            binary8_outcome(BinaryOp::Add, op1, op2, regs, mem)
        },
        Instruction::ADC => binary8_outcome(BinaryOp::Adc, op1, op2, regs, mem),
        Instruction::SUB => binary8_outcome(BinaryOp::Sub, op1, op2, regs, mem),
        Instruction::SBC => binary8_outcome(BinaryOp::Sbc, op1, op2, regs, mem),
        Instruction::AND => binary8_outcome(BinaryOp::And, op1, op2, regs, mem),
        Instruction::OR => binary8_outcome(BinaryOp::Or, op1, op2, regs, mem),
        Instruction::XOR => binary8_outcome(BinaryOp::Xor, op1, op2, regs, mem),
        Instruction::CP => binary8_outcome(BinaryOp::Cp, op1, op2, regs, mem),
        Instruction::LD => ld_outcome(op1, op2, regs, mem),
        Instruction::LDH => ldh_outcome(op1, op2, regs, mem),
        Instruction::CALL | Instruction::JP | Instruction::JR => if op2 == Operand::NIL {
            branch_outcome(instr, Operand::Immediate(1), op1, regs, mem)
        } else {
            branch_outcome(instr, op1, op2, regs, mem)
        },
        Instruction::RET => if op1 == Operand::NIL {
            done(ret_spec(regs, mem, true), mem)
        } else {
            match op1.read8_error() {
                Some(e) => failed(e, regs, mem),
                None => done(ret_spec(regs, mem, op1.value8(regs, mem) == 1), mem),
            }
        },
        Instruction::RETI => done(ret_spec(regs, mem, true), mem),
        Instruction::RST => call_outcome(op1, true, regs, mem),
        Instruction::INC => if op1.is_register16() {
            step16_outcome(op1, 1, regs, mem)
        } else {
            unary8_outcome(UnaryOp::Inc, op1, regs, mem)
        },
        Instruction::DEC => if op1.is_register16() {
            step16_outcome(op1, -1, regs, mem)
        } else {
            unary8_outcome(UnaryOp::Dec, op1, regs, mem)
        },
        Instruction::PUSH => push_outcome(op1, regs, mem),
        Instruction::POP => pop_outcome(op1, regs, mem),
        Instruction::RLCA => unary8_outcome(UnaryOp::Rlc, Operand::Register(RegisterNames::A), regs, mem),
        Instruction::RRCA => unary8_outcome(UnaryOp::Rrc, Operand::Register(RegisterNames::A), regs, mem),
        Instruction::RLA => unary8_outcome(UnaryOp::Rl, Operand::Register(RegisterNames::A), regs, mem),
        Instruction::RRA => unary8_outcome(UnaryOp::Rr, Operand::Register(RegisterNames::A), regs, mem),
        Instruction::DAA => done(daa_spec(regs), mem),
        Instruction::CPL => done(cpl_spec(regs), mem),
        Instruction::SCF => done(scf_spec(regs), mem),
        Instruction::CCF => done(ccf_spec(regs), mem),
        Instruction::PREFIX => failed(CpuError::UnknownOpcode(0xCB), regs, mem),
        _ => prefixed_outcome(instr, op1, op2, regs, mem),
    }
}

/// The outcome of a CB-prefixed instruction; any other mnemonic is refused.
pub open spec fn prefixed_outcome(
    instr: Instruction,
    op1: Operand,
    op2: Operand,
    regs: Registers,
    mem: MemoryView,
) -> Outcome {
    match instr {
        Instruction::RLC => unary8_outcome(UnaryOp::Rlc, op1, regs, mem),
        Instruction::RRC => unary8_outcome(UnaryOp::Rrc, op1, regs, mem),
        Instruction::RL => unary8_outcome(UnaryOp::Rl, op1, regs, mem),
        Instruction::RR => unary8_outcome(UnaryOp::Rr, op1, regs, mem),
        Instruction::SLA => unary8_outcome(UnaryOp::Sla, op1, regs, mem),
        Instruction::SRA => unary8_outcome(UnaryOp::Sra, op1, regs, mem),
        Instruction::SWAP => unary8_outcome(UnaryOp::Swap, op1, regs, mem),
        Instruction::SRL => unary8_outcome(UnaryOp::Srl, op1, regs, mem),
        Instruction::BIT | Instruction::RES | Instruction::SET => match op1 {
            Operand::Immediate(n) => if instr == Instruction::BIT {
                bit_outcome(op2, n, regs, mem)
            } else {
                set_res_outcome(op2, n, instr == Instruction::SET, regs, mem)
            },
            _ => failed(CpuError::InvalidOperand(op1), regs, mem),
        },
        _ => failed(CpuError::UnknownOpcode(0xCB), regs, mem),
    }
}

fn branch(instr: Instruction, registers: &mut Registers, memory: &mut MMU, cond_op: Operand, target: Operand) -> (r: Result<(), CpuError>)
    requires
        old(memory).wf(),
        instr == Instruction::CALL || instr == Instruction::JP || instr == Instruction::JR,
    ensures
        final(memory).wf(),
        (r, *final(registers), final(memory)@) == branch_outcome(instr, cond_op, target, *old(registers), old(memory)@),
{
    let cond = match cond_op.read(registers, memory) {
        Ok(v) => v == 1,
        Err(e) => return Err(e),
    };
    match instr {
        Instruction::CALL => call(registers, memory, target, cond),
        Instruction::JP => jp(registers, memory, target, cond),
        _ => jr(registers, memory, target, cond),
    }
}

impl Instruction {
    /// Executes an unprefixed or CB-prefixed instruction on its resolved
    /// operands.
    #[verifier::rlimit(50)]
    pub fn match_instruction(&self, registers: &mut Registers, memory: &mut MMU, ops: &[Operand; 2]) -> (r: Result<(), CpuError>)
        requires
            old(memory).wf(),
        ensures
            final(memory).wf(),
            (r, *final(registers), final(memory)@) == instruction_outcome(*self, ops[0], ops[1], *old(registers), old(memory)@),
    {
        let operand1 = ops[0];
        let operand2 = ops[1];
        let a = Operand::Register(RegisterNames::A);
        match self {
            Instruction::NOP | Instruction::DI | Instruction::EI | Instruction::HALT => Ok(()),
            Instruction::ADD => match operand1 {
                Operand::Register(reg) if !reg.is_byte_register() => add_16bit(registers, operand1, operand2, memory),
                _ => add_8bit(registers, memory, operand1, operand2),
            },
            Instruction::ADC => adc_8bit(registers, memory, operand1, operand2),
            Instruction::SUB => sub_8bit(registers, memory, operand1, operand2),
            Instruction::SBC => sbc_8bit(registers, memory, operand1, operand2),
            Instruction::AND => and_8bit(registers, memory, operand1, operand2),
            Instruction::OR => or_8bit(registers, memory, operand1, operand2),
            Instruction::XOR => xor_8bit(registers, memory, operand1, operand2),
            Instruction::CP => cp_8bit(registers, memory, operand1, operand2),
            Instruction::LD => ld(registers, operand1, operand2, memory),
            Instruction::LDH => ldh(registers, operand1, operand2, memory),
            Instruction::CALL | Instruction::JP | Instruction::JR => match operand2 {
                Operand::NIL => branch(*self, registers, memory, Operand::Immediate(1), operand1),
                _ => branch(*self, registers, memory, operand1, operand2),
            },
            Instruction::RET => match operand1 {
                Operand::NIL => {
                    ret(registers, memory, true);
                    Ok(())
                },
                _ => {
                    let cond = match operand1.read(registers, memory) {
                        Ok(v) => v == 1,
                        Err(e) => return Err(e),
                    };
                    ret(registers, memory, cond);
                    Ok(())
                },
            },
            Instruction::RETI => {
                ret(registers, memory, true);
                Ok(())
            },
            Instruction::RST => call(registers, memory, operand1, true),
            Instruction::INC => match operand1 {
                Operand::Register(reg) if !reg.is_byte_register() => inc_16bit(registers, operand1, memory),
                _ => inc_8bit(registers, memory, operand1),
            },
            Instruction::DEC => match operand1 {
                Operand::Register(reg) if !reg.is_byte_register() => dec_16bit(registers, operand1, memory),
                _ => dec_8bit(registers, memory, operand1),
            },
            Instruction::PUSH => push(registers, memory, operand1),
            Instruction::POP => pop(registers, memory, operand1),
            Instruction::RLCA => rlc(registers, memory, a),
            Instruction::RRCA => rrc(registers, memory, a),
            Instruction::RLA => rl(registers, memory, a),
            Instruction::RRA => rr(registers, memory, a),
            Instruction::DAA => {
                daa(registers);
                Ok(())
            },
            Instruction::CPL => {
                cpl(registers);
                Ok(())
            },
            Instruction::SCF => {
                scf(registers);
                Ok(())
            },
            Instruction::CCF => {
                ccf(registers);
                Ok(())
            },
            Instruction::PREFIX => Err(CpuError::UnknownOpcode(0xCB)),
            _ => self.match_prefix_instruction(registers, memory, ops),
        }
    }

    /// Executes a CB-prefixed instruction on its resolved operands; the bit
    /// instructions take the bit index as their first operand.
    pub fn match_prefix_instruction(&self, registers: &mut Registers, memory: &mut MMU, ops: &[Operand; 2]) -> (r: Result<(), CpuError>)
        requires
            old(memory).wf(),
        ensures
            final(memory).wf(),
            (r, *final(registers), final(memory)@) == prefixed_outcome(*self, ops[0], ops[1], *old(registers), old(memory)@),
    {
        let operand1 = ops[0];
        let operand2 = ops[1];
        match self {
            Instruction::RLC => rlc(registers, memory, operand1),
            Instruction::RRC => rrc(registers, memory, operand1),
            Instruction::RL => rl(registers, memory, operand1),
            Instruction::RR => rr(registers, memory, operand1),
            Instruction::SLA => sla(registers, memory, operand1),
            Instruction::SRA => sra(registers, memory, operand1),
            Instruction::SWAP => swap(registers, memory, operand1),
            Instruction::SRL => srl(registers, memory, operand1),
            Instruction::BIT | Instruction::RES | Instruction::SET => match operand1 {
                Operand::Immediate(n) => match self {
                    Instruction::BIT => bit(registers, memory, operand2, n),
                    Instruction::SET => set(registers, memory, operand2, n),
                    _ => res(registers, memory, operand2, n),
                },
                _ => Err(CpuError::InvalidOperand(operand1)),
            },
            _ => Err(CpuError::UnknownOpcode(0xCB)),
        }
    }
}

/// A one-operand operation on an eight-bit register, or on an address where
/// writes are stored, succeeds; the operand then reads back the result, and
/// Z is set exactly when that result is zero.
pub proof fn lemma_unary_reads_back(op: UnaryOp, operand: Operand, regs: Registers, mem: MemoryView)
    requires
        mem.wf(),
        operand.is_register8() || (operand is Memory && MemoryView::writable(operand->Memory_0)),
    ensures
        ({
            let (r, regs2, mem2) = unary8_outcome(op, operand, regs, mem);
            let res = spec_unary8(op, operand.value8(regs, mem), regs.flag).0;
            r is Ok && operand.value8(regs2, mem2) == res && regs2.flag.z == (res == 0)
        }),
{
    let v = operand.value8(regs, mem);
    let (res, fl) = spec_unary8(op, v, regs.flag);
    assert(fl.z == (res == 0)) by {
        crate::alu::lemma_zero_flag_tracks_result(v, 0, regs.flag);
    }
    let flagged = Registers { flag: fl, ..regs };
    match operand {
        Operand::Register(r) => {
            crate::registers::lemma_half_write_keeps_other_half(flagged, r, res);
            assert(unary8_outcome(op, operand, regs, mem) == done(flagged.with8(r, res), mem));
        },
        Operand::Memory(a) => {
            lemma_write_then_read(mem, a, a, res);
            assert(unary8_outcome(op, operand, regs, mem) == done(flagged, mem.write(a, res)));
        },
        _ => {},
    }
}

/// A two-operand eight-bit ALU operation whose first operand is an eight-bit
/// register, or an address where writes are stored, succeeds on a readable
/// second operand; but for CP, the first operand then reads back the result,
/// and Z is set exactly when that result is zero.
pub proof fn lemma_binary_reads_back(
    op: BinaryOp,
    op1: Operand,
    op2: Operand,
    regs: Registers,
    mem: MemoryView,
)
    requires
        mem.wf(),
        op1.is_register8() || (op1 is Memory && MemoryView::writable(op1->Memory_0)),
        op2.read8_error() is None,
        op != BinaryOp::Cp,
    ensures
        ({
            let (r, regs2, mem2) = binary8_outcome(op, op1, op2, regs, mem);
            let res = spec_binary8(op, op1.value8(regs, mem), op2.value8(regs, mem), regs.flag).0;
            r is Ok && op1.value8(regs2, mem2) == res && regs2.flag.z == (res == 0)
        }),
{
    let a = op1.value8(regs, mem);
    let b = op2.value8(regs, mem);
    let (res, fl) = spec_binary8(op, a, b, regs.flag);
    assert(fl.z == (res == 0)) by {
        crate::alu::lemma_zero_flag_tracks_result(a, b, regs.flag);
    }
    let flagged = Registers { flag: fl, ..regs };
    match op1 {
        Operand::Register(r) => {
            crate::registers::lemma_half_write_keeps_other_half(flagged, r, res);
            assert(binary8_outcome(op, op1, op2, regs, mem) == done(flagged.with8(r, res), mem));
        },
        Operand::Memory(addr) => {
            lemma_write_then_read(mem, addr, addr, res);
            assert(binary8_outcome(op, op1, op2, regs, mem) == done(flagged, mem.write(addr, res)));
        },
        _ => {},
    }
}

/// PUSH of a sixteen-bit register followed by POP of the same register leaves
/// that register and SP as they were, whenever the two stack bytes below SP
/// are stored (neither ROM nor the unusable range).
pub proof fn lemma_push_pop_round_trip(rr: RegisterNames, regs: Registers, mem: MemoryView)
    requires
        !rr.is_8bit(),
        mem.wf(),
        MemoryView::writable(wrap16(regs.sp - 2)),
        MemoryView::writable(wrap16(regs.sp - 1)),
    ensures
        ({
            let (r1, regs1, mem1) = push_outcome(Operand::Register(rr), regs, mem);
            let (r2, regs2, mem2) = pop_outcome(Operand::Register(rr), regs1, mem1);
            r1 is Ok && r2 is Ok && regs2.get16(rr) == regs.get16(rr) && regs2.sp == regs.sp
        }),
{
    let sp = wrap16(regs.sp - 2);
    let v = regs.get16(rr);
    let regs1 = Registers { sp, ..regs };
    let mem1 = mem.write_word(sp, v);
    assert(push_outcome(Operand::Register(rr), regs, mem) == done(regs1, mem1));
    assert(next_addr(sp) == wrap16(regs.sp - 1));
    lemma_word_write_then_read(mem, sp, v);
    assert(wrap16(sp + 2) == regs.sp);
    let regs2 = Registers { sp: regs.sp, ..regs1 }.with16(rr, v);
    assert(pop_outcome(Operand::Register(rr), regs1, mem1) == done(regs2, mem1));
    if rr == RegisterNames::AF {
        let f = regs.flag.byte();
        assert(f < 256);
        assert(v == (regs.af / 256) * 256 + f);
        assert(v % 256 == f);
        assert(v / 256 == regs.af / 256);
        crate::registers::lemma_flag_byte_round_trip(regs.flag);
        assert(regs2.flag == regs.flag);
    }
}

} // verus!
