use puro_boy::mmu::MMU;

#[test]
fn rom_is_loaded_and_read_only() {
    let mut mem = MMU::new(vec![0x11, 0x22, 0x33]);
    assert_eq!(mem.read(0x0001), 0x22);
    assert_eq!(mem.read_rom(0x0002), 0x33);
    assert_eq!(mem.read_rom(0x8000), 0);
    mem.write(0x0001, 0xFF);
    assert_eq!(mem.read(0x0001), 0x22);
}

#[test]
fn echo_ram_mirrors_work_ram() {
    let mut mem = MMU::new(vec![]);
    mem.write(0xC123, 0x5A);
    assert_eq!(mem.read(0xE123), 0x5A);
    mem.write(0xE124, 0xA5);
    assert_eq!(mem.read(0xC124), 0xA5);
}

#[test]
fn unusable_range_reads_zero() {
    let mut mem = MMU::new(vec![]);
    mem.write(0xFEA0, 0x12);
    assert_eq!(mem.read(0xFEA0), 0);
}

#[test]
fn words_are_little_endian() {
    let mut mem = MMU::new(vec![]);
    mem.write_word(0xC000, 0xBEEF);
    assert_eq!(mem.read(0xC000), 0xEF);
    assert_eq!(mem.read(0xC001), 0xBE);
    assert_eq!(mem.read_word(0xC000), 0xBEEF);
}

#[test]
fn lcd_registers_follow_io_writes() {
    let mut mem = MMU::new(vec![]);
    mem.write(0xFF42, 0x10);
    mem.write(0xFF47, 0x1B);
    mem.write(0xFF40, 0x80);
    assert_eq!(mem.get_ppu().lcd.scroll_y, 0x10);
    assert_eq!(mem.get_ppu().lcd.bg_palette, 0x1B);
    assert!(mem.get_ppu().lcd.lcd_enabled);
    assert_eq!(mem.read(0xFF42), 0x10);
    mem.get_ppu_mut().turn_lcd_off();
    assert!(!mem.ppu.lcd.lcd_enabled);
}

#[test]
fn vram_is_stored_in_the_ppu() {
    let mut mem = MMU::new(vec![]);
    mem.write(0x8010, 0x3C);
    assert_eq!(mem.read(0x8010), 0x3C);
    assert_eq!(mem.ppu.vram[0x10], 0x3C);
}
