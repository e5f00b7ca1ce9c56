use puro_boy::cpu::CPU;
use puro_boy::error::CpuError;
use puro_boy::mmu::MMU;
use puro_boy::opcodes::{Instruction, OpcodeEntry, OperandDescriptor, OperandName};
use puro_boy::registers::RegisterNames;

/// A core whose program starts at address 0.
fn cpu_with(program: &[u8]) -> CPU {
    let mut cpu = CPU::new(MMU::new(program.to_vec()));
    cpu.registers.pc = 0;
    cpu
}

fn af(cpu: &CPU) -> u16 {
    cpu.registers.get_register_value_16(RegisterNames::AF).unwrap()
}

fn reg8(cpu: &CPU, r: RegisterNames) -> u8 {
    cpu.registers.get_register_value_8(r).unwrap()
}

#[test]
fn push_af_then_pop_af_restores_stack() {
    let mut cpu = cpu_with(&[0xF5, 0xF1]);
    cpu.registers.set_register_value_16(RegisterNames::AF, 0x1230).unwrap();
    cpu.registers.sp = 0xFFFE;
    cpu.step().unwrap();
    assert_eq!(cpu.memory.read(0xFFFD), 0x12);
    assert_eq!(cpu.memory.read(0xFFFC), 0x30);
    assert_eq!(cpu.registers.sp, 0xFFFC);
    cpu.registers.set_register_value_16(RegisterNames::AF, 0).unwrap();
    cpu.step().unwrap();
    assert_eq!(af(&cpu), 0x1230);
    assert_eq!(cpu.registers.sp, 0xFFFE);
}

#[test]
fn push_af_stores_f_with_low_nibble_cleared() {
    let mut cpu = cpu_with(&[0xF5, 0xF1]);
    cpu.registers.set_register_value_16(RegisterNames::AF, 0x1234).unwrap();
    assert_eq!(af(&cpu), 0x1230);
    cpu.step().unwrap();
    assert_eq!(cpu.memory.read(0xFFFD), 0x12);
    assert_eq!(cpu.memory.read(0xFFFC), 0x30);
    cpu.step().unwrap();
    assert_eq!(af(&cpu), 0x1230);
    assert_eq!(cpu.registers.sp, 0xFFFE);
}

#[test]
fn add_a_b_overflows_to_zero() {
    let mut cpu = cpu_with(&[0x80]);
    cpu.registers.set_register_value_8(RegisterNames::A, 0xFF).unwrap();
    cpu.registers.set_register_value_8(RegisterNames::B, 0x01).unwrap();
    cpu.step().unwrap();
    assert_eq!(reg8(&cpu, RegisterNames::A), 0x00);
    assert_eq!(cpu.registers.get_flags(), (true, false, true, true));
}

#[test]
fn ld_bc_d16_reads_little_endian_immediate() {
    let mut cpu = cpu_with(&[0x01, 0x69, 0x69]);
    cpu.step().unwrap();
    assert_eq!(cpu.registers.bc, 0x6969);
    assert_eq!(cpu.registers.pc, 3);
}

#[test]
fn bit_7_h_tests_the_top_bit() {
    let mut cpu = cpu_with(&[0xCB, 0x7C, 0xCB, 0x7C]);
    cpu.registers.set_register_value_8(RegisterNames::H, 0x80).unwrap();
    cpu.registers.set_carry_flag(true);
    cpu.step().unwrap();
    assert_eq!(cpu.registers.get_flags(), (false, false, true, true));
    assert_eq!(cpu.registers.pc, 2);
    cpu.registers.set_register_value_8(RegisterNames::H, 0x7F).unwrap();
    cpu.registers.set_carry_flag(false);
    cpu.step().unwrap();
    assert_eq!(cpu.registers.get_flags(), (true, false, true, false));
}

#[test]
fn jr_nz_back_two_loops_on_itself() {
    let mut rom = vec![0u8; 0x102];
    rom[0x100] = 0x20;
    rom[0x101] = 0xFE;
    let mut cpu = CPU::new(MMU::new(rom));
    assert_eq!(cpu.registers.pc, 0x100);
    cpu.registers.set_zero_flag(false);
    cpu.step().unwrap();
    assert_eq!(cpu.registers.pc, 0x100);
    cpu.registers.set_zero_flag(true);
    cpu.step().unwrap();
    assert_eq!(cpu.registers.pc, 0x102);
}

#[test]
fn inc_a_sets_half_carry_from_low_nibble() {
    let mut cpu = cpu_with(&[0x3C]);
    cpu.registers.set_register_value_8(RegisterNames::A, 0x0F).unwrap();
    cpu.registers.set_carry_flag(true);
    cpu.step().unwrap();
    assert_eq!(reg8(&cpu, RegisterNames::A), 0x10);
    assert_eq!(cpu.registers.get_flags(), (false, false, true, true));
}

#[test]
fn f_low_nibble_stays_zero() {
    let mut cpu = cpu_with(&[0xF1, 0x37, 0x3F, 0x80]);
    cpu.memory.write(0xC000, 0xFF);
    cpu.memory.write(0xC001, 0xAB);
    cpu.registers.sp = 0xC000;
    cpu.step().unwrap();
    assert_eq!(af(&cpu), 0xABF0);
    for _ in 0..3 {
        cpu.step().unwrap();
        assert_eq!(af(&cpu) & 0x0F, 0);
    }
}

#[test]
fn push_pop_round_trip_for_each_pair() {
    for (push, pop, r) in [
        (0xC5u8, 0xC1u8, RegisterNames::BC),
        (0xD5, 0xD1, RegisterNames::DE),
        (0xE5, 0xE1, RegisterNames::HL),
    ] {
        let mut cpu = cpu_with(&[push, pop]);
        cpu.registers.set_register_value_16(r, 0xBEEF).unwrap();
        cpu.registers.sp = 0xD000;
        cpu.step().unwrap();
        assert_eq!(cpu.registers.sp, 0xCFFE);
        cpu.registers.set_register_value_16(r, 0).unwrap();
        cpu.step().unwrap();
        assert_eq!(cpu.registers.get_register_value_16(r).unwrap(), 0xBEEF);
        assert_eq!(cpu.registers.sp, 0xD000);
    }
}

#[test]
fn decode_at_is_repeatable_and_changes_nothing() {
    let cpu = cpu_with(&[0x01, 0x69, 0x69]);
    let first = cpu.decode_at().unwrap();
    let second = cpu.decode_at().unwrap();
    assert_eq!(first, second);
    assert_eq!(
        first,
        OpcodeEntry {
            mnemonic: Instruction::LD,
            first: Some(OperandDescriptor { name: OperandName::BC, immediate: true }),
            second: Some(OperandDescriptor { name: OperandName::N16, immediate: true }),
        }
    );
    assert_eq!(cpu.registers.pc, 0);
    let cb = cpu_with(&[0xCB, 0x7C]);
    assert_eq!(cb.decode_at().unwrap().mnemonic, Instruction::BIT);
}

#[test]
fn unknown_opcode_fails_without_changing_anything() {
    let mut cpu = cpu_with(&[0xD3]);
    cpu.ime = true;
    cpu.memory.write(0xC000, 0x42);
    let regs = cpu.registers;
    assert_eq!(cpu.step(), Err(CpuError::UnknownOpcode(0xD3)));
    assert_eq!(cpu.registers, regs);
    assert_eq!(cpu.registers.pc, 0);
    assert!(cpu.ime);
    assert!(!cpu.halted);
    assert_eq!(cpu.memory.read(0xC000), 0x42);
    assert_eq!(cpu.step(), Err(CpuError::UnknownOpcode(0xD3)));
    assert_eq!(cpu.registers.pc, 0);
}

#[test]
fn unknown_opcodes_are_reported() {
    let mut cpu = cpu_with(&[0xD3]);
    assert_eq!(cpu.step(), Err(CpuError::UnknownOpcode(0xD3)));
    let mut stop = cpu_with(&[0x10]);
    assert_eq!(stop.step(), Err(CpuError::UnknownOpcode(0x10)));
}

#[test]
fn halt_stops_execution() {
    let mut cpu = cpu_with(&[0x76, 0x3C]);
    cpu.step().unwrap();
    assert!(cpu.halted);
    let before = cpu.registers;
    cpu.step().unwrap();
    assert_eq!(cpu.registers, before);
}

#[test]
fn di_and_ei_toggle_interrupt_enable() {
    let mut cpu = cpu_with(&[0xFB, 0xF3]);
    assert!(!cpu.ime);
    cpu.step().unwrap();
    assert!(cpu.ime);
    cpu.step().unwrap();
    assert!(!cpu.ime);
}

#[test]
fn call_then_ret_returns_after_the_call() {
    let mut rom = vec![0u8; 0x20];
    rom[0] = 0xCD;
    rom[1] = 0x10;
    rom[2] = 0x00;
    rom[0x10] = 0xC9;
    let mut cpu = cpu_with(&rom);
    cpu.registers.sp = 0xFFFE;
    cpu.step().unwrap();
    assert_eq!(cpu.registers.pc, 0x10);
    assert_eq!(cpu.registers.sp, 0xFFFC);
    assert_eq!(cpu.memory.read_word(0xFFFC), 0x0003);
    cpu.step().unwrap();
    assert_eq!(cpu.registers.pc, 0x0003);
    assert_eq!(cpu.registers.sp, 0xFFFE);
}

#[test]
fn rst_calls_its_vector() {
    let mut cpu = cpu_with(&[0xFF]);
    cpu.step().unwrap();
    assert_eq!(cpu.registers.pc, 0x38);
    assert_eq!(cpu.memory.read_word(cpu.registers.sp), 0x0001);
}

#[test]
fn ld_hl_increment_stores_then_advances() {
    let mut cpu = cpu_with(&[0x22, 0x2A]);
    cpu.registers.set_register_value_16(RegisterNames::HL, 0xC000).unwrap();
    cpu.registers.set_register_value_8(RegisterNames::A, 0x5A).unwrap();
    cpu.step().unwrap();
    assert_eq!(cpu.memory.read(0xC000), 0x5A);
    assert_eq!(cpu.registers.hl, 0xC001);
    cpu.memory.write(0xC001, 0x77);
    cpu.step().unwrap();
    assert_eq!(reg8(&cpu, RegisterNames::A), 0x77);
    assert_eq!(cpu.registers.hl, 0xC002);
}

#[test]
fn ldh_uses_the_high_page() {
    let mut cpu = cpu_with(&[0xE0, 0x80, 0xF0, 0x81, 0xE2]);
    cpu.registers.set_register_value_8(RegisterNames::A, 0x42).unwrap();
    cpu.step().unwrap();
    assert_eq!(cpu.memory.read(0xFF80), 0x42);
    cpu.memory.write(0xFF81, 0x99);
    cpu.step().unwrap();
    assert_eq!(reg8(&cpu, RegisterNames::A), 0x99);
    cpu.registers.set_register_value_8(RegisterNames::C, 0x82).unwrap();
    cpu.step().unwrap();
    assert_eq!(cpu.memory.read(0xFF82), 0x99);
}

#[test]
fn inc_16_leaves_flags_alone() {
    let mut cpu = cpu_with(&[0x03, 0x0B]);
    cpu.registers.bc = 0xFFFF;
    cpu.registers.set_flags(false, true, false, true);
    cpu.step().unwrap();
    assert_eq!(cpu.registers.bc, 0x0000);
    assert_eq!(cpu.registers.get_flags(), (false, true, false, true));
    cpu.step().unwrap();
    assert_eq!(cpu.registers.bc, 0xFFFF);
}

#[test]
fn add_hl_sets_half_carry_from_bit_11() {
    let mut cpu = cpu_with(&[0x09]);
    cpu.registers.hl = 0x0FFF;
    cpu.registers.bc = 0x0001;
    cpu.registers.set_flags(true, true, false, false);
    cpu.step().unwrap();
    assert_eq!(cpu.registers.hl, 0x1000);
    assert_eq!(cpu.registers.get_flags(), (true, false, true, false));
}

#[test]
fn resolver_refuses_byte_register_as_address() {
    let mut cpu = cpu_with(&[]);
    let d = OperandDescriptor { name: OperandName::B, immediate: false };
    assert_eq!(
        cpu.get_operand(d, Instruction::LD),
        Err(CpuError::InvalidRegisterForOperation(RegisterNames::B))
    );
}

#[test]
fn new_core_starts_after_boot() {
    let cpu = CPU::new(MMU::new(vec![]));
    assert_eq!(af(&cpu), 0x01B0);
    assert_eq!(cpu.registers.bc, 0x0013);
    assert_eq!(cpu.registers.de, 0x00D8);
    assert_eq!(cpu.registers.hl, 0x014D);
    assert_eq!(cpu.registers.sp, 0xFFFE);
    assert_eq!(cpu.registers.pc, 0x0100);
    assert!(!cpu.halted);
}

#[test]
fn every_table_opcode_steps_without_error() {
    let mut unknown = Vec::new();
    for op in 0..=255u8 {
        let mut cpu = cpu_with(&[op, 0x00, 0xC0]);
        cpu.registers.set_register_value_16(RegisterNames::HL, 0xC100).unwrap();
        cpu.registers.sp = 0xD000;
        match cpu.step() {
            Ok(()) => {}
            Err(CpuError::UnknownOpcode(b)) => {
                assert_eq!(b, op);
                unknown.push(op);
            }
            Err(e) => panic!("opcode {:02X} failed: {:?}", op, e),
        }
    }
    assert_eq!(
        unknown,
        vec![0x10, 0xD3, 0xDB, 0xDD, 0xE3, 0xE4, 0xE8, 0xEB, 0xEC, 0xED, 0xF4, 0xF8, 0xFC, 0xFD]
    );
    for op in 0..=255u8 {
        let mut cpu = cpu_with(&[0xCB, op]);
        assert_eq!(cpu.step(), Ok(()));
        assert_eq!(cpu.registers.pc, 2);
    }
}
