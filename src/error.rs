use vstd::prelude::*;

use crate::instructions::Operand;
use crate::registers::RegisterNames;

verus! {

/// Why a step of the core could not be carried out.
#[derive(Debug, PartialEq, Eq)]
pub enum CpuError {
    /// The opcode byte has no entry in the opcode table.
    UnknownOpcode(u8),
    /// An operand or mnemonic name outside the known vocabulary.
    UnknownOperandName(String),
    /// An operand of the wrong width: the width expected, then the width found.
    InvalidOperandWidth(u8, u8),
    /// The register cannot take part in the operation.
    InvalidRegisterForOperation(RegisterNames),
    /// The operand cannot take part in the operation (an immediate as a
    /// destination, a bit index above 7, a malformed LDH form).
    InvalidOperand(Operand),
}

} // verus!
