use puro_boy::error::CpuError;
use puro_boy::opcodes::{
    is_flag, match_string_preinstruction, match_string_to_flag, match_string_to_instruction,
    match_string_to_register, match_string_to_register16, Instruction,
};
use puro_boy::registers::{Flag, FlagNames, RegisterNames, Registers};

#[test]
fn half_registers_keep_their_partner() {
    let mut regs = Registers::new();
    regs.set_register_value_16(RegisterNames::BC, 0x1234).unwrap();
    regs.set_register_value_8(RegisterNames::B, 0xAB).unwrap();
    assert_eq!(regs.bc, 0xAB34);
    regs.set_register_value_8(RegisterNames::C, 0xCD).unwrap();
    assert_eq!(regs.bc, 0xABCD);
    assert_eq!(regs.get_register_value_8(RegisterNames::C), Ok(0xCD));
}

#[test]
fn af_write_loads_flags_from_top_nibble() {
    let mut regs = Registers::new();
    regs.set_register_value_16(RegisterNames::AF, 0x42A5).unwrap();
    assert_eq!(regs.get_flags(), (true, false, true, false));
    assert_eq!(regs.get_register_value_16(RegisterNames::AF), Ok(0x42A0));
    assert_eq!(regs.get_register_value_8(RegisterNames::A), Ok(0x42));
}

#[test]
fn flag_value_and_conditions() {
    let mut f = Flag::new();
    f.set_flag_value(0x50);
    assert_eq!(f.get_flags(), (false, true, false, true));
    assert_eq!(f.to_byte(), 0x50);
    f.reset_flags();
    assert_eq!(f.get_flags(), (false, false, false, false));
    let mut regs = Registers::new();
    regs.set_flags(true, false, false, false);
    assert!(regs.get_flag(&FlagNames::Z));
    assert!(!regs.get_flag(&FlagNames::NZ));
    assert!(regs.get_flag(&FlagNames::NC));
    regs.reset_flags();
    assert_eq!(regs.get_flags(), (false, false, false, false));
}

#[test]
fn names_parse_to_their_enums() {
    assert_eq!(match_string_to_instruction("ADD"), Ok(Instruction::ADD));
    assert_eq!(match_string_to_instruction("RETI"), Ok(Instruction::RETI));
    assert_eq!(match_string_to_instruction("FOO"), Err(CpuError::UnknownOperandName("FOO".to_string())));
    assert_eq!(match_string_preinstruction("SWAP"), Ok(Instruction::SWAP));
    assert!(match_string_preinstruction("ADD").is_err());
    assert_eq!(match_string_to_register("L"), Ok(RegisterNames::L));
    assert_eq!(match_string_to_register("SP"), Ok(RegisterNames::SP));
    assert_eq!(match_string_to_register16("HL"), Ok(RegisterNames::HL));
    assert!(match_string_to_register16("H").is_err());
    assert_eq!(match_string_to_flag("NC"), Ok(FlagNames::NC));
    assert_eq!(match_string_to_flag("X"), Err(CpuError::UnknownOperandName("X".to_string())));
    assert!(is_flag("NZ", &Instruction::JR));
    assert!(is_flag("C", &Instruction::CALL));
    assert!(!is_flag("C", &Instruction::LD));
    assert!(!is_flag("HL", &Instruction::JP));
}

#[test]
fn af_writes_that_read_the_same_compare_equal() {
    let mut a = Registers::new();
    let mut b = Registers::new();
    a.set_register_value_16(RegisterNames::AF, 0x1234).unwrap();
    b.set_register_value_16(RegisterNames::AF, 0x1230).unwrap();
    assert_eq!(a, b);
    assert_eq!(a.af, 0x1200);
}
