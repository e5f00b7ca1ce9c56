//! Instruction-execution core of a Game Boy (Sharp LR35902) emulator.
//!
//! The register file, the operand model, the ALU and flag engine, the opcode
//! tables and the fetch/decode/execute dispatcher are verified against
//! mathematical models of the machine state.

pub mod alu;
pub mod cpu;
pub mod error;
pub mod instructions;
pub mod registers;
pub mod ppu;
pub mod mmu;
pub mod opcodes;
