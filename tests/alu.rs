use puro_boy::alu::{add16, add8, and8, daa8, dec8, inc8, or8, rl8, rlc8, rr8, rrc8, sla8, sra8, srl8, sub16, sub8, swap8, xor8};
use puro_boy::error::CpuError;
use puro_boy::instructions::{add, bit, cp_8bit, ld, res, sbc_8bit, Operand};
use puro_boy::mmu::MMU;
use puro_boy::registers::{Flag, FlagNames, RegisterNames, Registers};

fn flags(z: bool, n: bool, h: bool, c: bool) -> Flag {
    Flag { z, n, h, c }
}

#[test]
fn zero_flag_follows_every_result() {
    assert_eq!(add8(0x80, 0x80, false), (0x00, flags(true, false, false, true)));
    assert_eq!(add8(0x0F, 0x01, true), (0x11, flags(false, false, true, false)));
    assert_eq!(sub8(0x05, 0x05, false), (0x00, flags(true, true, false, false)));
    assert_eq!(sub8(0x10, 0x01, true), (0x0E, flags(false, true, true, false)));
    assert_eq!(sub8(0x00, 0x01, false), (0xFF, flags(false, true, true, true)));
    assert_eq!(and8(0xF0, 0x0F), (0x00, flags(true, false, true, false)));
    assert_eq!(or8(0x00, 0x00), (0x00, flags(true, false, false, false)));
    assert_eq!(xor8(0xAA, 0xAA), (0x00, flags(true, false, false, false)));
    assert_eq!(xor8(0xAA, 0x55), (0xFF, flags(false, false, false, false)));
}

#[test]
fn inc_and_dec_keep_carry() {
    let f = flags(false, false, false, true);
    assert_eq!(inc8(0xFF, f), (0x00, flags(true, false, true, true)));
    assert_eq!(dec8(0x10, f), (0x0F, flags(false, true, true, true)));
    assert_eq!(dec8(0x01, flags(false, false, false, false)), (0x00, flags(true, true, false, false)));
}

#[test]
fn rotates_and_shifts() {
    let f = flags(false, false, false, true);
    assert_eq!(rlc8(0x85), (0x0B, flags(false, false, false, true)));
    assert_eq!(rrc8(0x01), (0x80, flags(false, false, false, true)));
    assert_eq!(rl8(0x80, f), (0x01, flags(false, false, false, true)));
    assert_eq!(rr8(0x01, flags(false, false, false, false)), (0x00, flags(true, false, false, true)));
    assert_eq!(sla8(0x81), (0x02, flags(false, false, false, true)));
    assert_eq!(sra8(0x81), (0xC0, flags(false, false, false, true)));
    assert_eq!(srl8(0x81), (0x40, flags(false, false, false, true)));
    assert_eq!(swap8(0xF1), (0x1F, flags(false, false, false, false)));
    assert_eq!(swap8(0x00), (0x00, flags(true, false, false, false)));
}

#[test]
fn sixteen_bit_arithmetic() {
    let f = flags(true, true, false, false);
    assert_eq!(add16(0x8000, 0x8000, f), (0x0000, flags(true, false, false, true)));
    assert_eq!(add16(0x0800, 0x0800, flags(false, true, false, false)), (0x1000, flags(false, false, true, false)));
    assert_eq!(sub16(0x1000, 0x0001), (0x0FFF, flags(false, true, true, false)));
}

#[test]
fn daa_corrects_bcd() {
    // 0x15 + 0x27 = 0x3C, which is 42 in BCD.
    assert_eq!(daa8(0x3C, flags(false, false, false, false)), (0x42, flags(false, false, false, false)));
    // 0x99 + 0x01 = 0x9A, which is 00 with a carry.
    assert_eq!(daa8(0x9A, flags(false, false, false, false)), (0x00, flags(true, false, false, true)));
    // 0x42 - 0x15 = 0x2D with a half borrow, which is 27.
    assert_eq!(daa8(0x2D, flags(false, true, true, false)), (0x27, flags(false, true, false, false)));
}

#[test]
fn add_helper_adds_to_a() {
    let mut regs = Registers::new();
    regs.set_register_value_8(RegisterNames::A, 0x3A).unwrap();
    add(&mut regs, 0xC6);
    assert_eq!(regs.get_register_value_8(RegisterNames::A), Ok(0x00));
    assert_eq!(regs.get_flags(), (true, false, true, true));
}

#[test]
fn cp_sets_flags_only() {
    let mut regs = Registers::new();
    let mut mem = MMU::new(vec![]);
    regs.set_register_value_8(RegisterNames::A, 0x10).unwrap();
    let a = Operand::Register(RegisterNames::A);
    cp_8bit(&mut regs, &mut mem, a, Operand::Immediate(0x20)).unwrap();
    assert_eq!(regs.get_register_value_8(RegisterNames::A), Ok(0x10));
    assert_eq!(regs.get_flags(), (false, true, false, true));
}

#[test]
fn sbc_borrows_the_carry() {
    let mut regs = Registers::new();
    let mut mem = MMU::new(vec![]);
    regs.set_register_value_8(RegisterNames::A, 0x10).unwrap();
    regs.set_carry_flag(true);
    let a = Operand::Register(RegisterNames::A);
    sbc_8bit(&mut regs, &mut mem, a, Operand::Immediate(0x0F)).unwrap();
    assert_eq!(regs.get_register_value_8(RegisterNames::A), Ok(0x00));
    assert_eq!(regs.get_flags(), (true, true, true, false));
}

#[test]
fn bit_set_res_on_memory() {
    let mut regs = Registers::new();
    let mut mem = MMU::new(vec![]);
    let cell = Operand::Memory(0xC010);
    puro_boy::instructions::set(&mut regs, &mut mem, cell, 3).unwrap();
    assert_eq!(mem.read(0xC010), 0x08);
    bit(&mut regs, &mut mem, cell, 3).unwrap();
    assert!(!regs.get_zero_flag());
    res(&mut regs, &mut mem, cell, 3).unwrap();
    assert_eq!(mem.read(0xC010), 0x00);
    bit(&mut regs, &mut mem, cell, 3).unwrap();
    assert!(regs.get_zero_flag());
    assert_eq!(
        puro_boy::instructions::set(&mut regs, &mut mem, cell, 8),
        Err(CpuError::InvalidOperand(Operand::Immediate(8)))
    );
}

#[test]
fn operand_errors() {
    let mut regs = Registers::new();
    let mut mem = MMU::new(vec![]);
    assert_eq!(Operand::Immediate16(5).read(&regs, &mem), Err(CpuError::InvalidOperandWidth(8, 16)));
    assert_eq!(Operand::NIL.read(&regs, &mem), Err(CpuError::InvalidOperandWidth(8, 0)));
    assert_eq!(Operand::Immediate(1).read_16(&regs, &mem), Err(CpuError::InvalidOperandWidth(16, 8)));
    assert_eq!(
        Operand::Immediate(1).write(2, &mut regs, &mut mem),
        Err(CpuError::InvalidOperand(Operand::Immediate(1)))
    );
    assert_eq!(regs.get_register_value_8(RegisterNames::SP), Err(CpuError::InvalidOperandWidth(8, 16)));
    assert_eq!(regs.get_register_value_16(RegisterNames::B), Err(CpuError::InvalidOperandWidth(16, 8)));
    let before = regs;
    assert_eq!(
        ld(&mut regs, Operand::Immediate16(3), Operand::Register(RegisterNames::HL), &mut mem),
        Err(CpuError::InvalidOperand(Operand::Immediate16(3)))
    );
    assert_eq!(regs, before);
}

#[test]
fn bit_lengths() {
    assert_eq!(Operand::Register(RegisterNames::A).get_bit_length(), 8);
    assert_eq!(Operand::Register(RegisterNames::HL).get_bit_length(), 16);
    assert_eq!(Operand::Memory(0xFF).get_bit_length(), 8);
    assert_eq!(Operand::Memory(0x100).get_bit_length(), 16);
    assert_eq!(Operand::Immediate(0).get_bit_length(), 8);
    assert_eq!(Operand::Immediate16(0).get_bit_length(), 16);
    assert_eq!(Operand::Flag(FlagNames::Z).get_bit_length(), 16);
    assert_eq!(Operand::NIL.get_bit_length(), 0);
}
