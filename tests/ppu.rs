use puro_boy::ppu::{get_pixelrow, get_tile, load_tileset, Tile, PPU};

const LETTER_A: [u8; 16] = [
    0x7C, 0x7C, 0x00, 0xC6, 0xC6, 0x00, 0x00, 0xFE, 0xC6, 0xC6, 0x00, 0xC6, 0xC6, 0x00, 0x00, 0x00,
];

const LETTER_A_PIXELS: [[u8; 8]; 8] = [
    [0, 3, 3, 3, 3, 3, 0, 0],
    [2, 2, 0, 0, 0, 2, 2, 0],
    [1, 1, 0, 0, 0, 1, 1, 0],
    [2, 2, 2, 2, 2, 2, 2, 0],
    [3, 3, 0, 0, 0, 3, 3, 0],
    [2, 2, 0, 0, 0, 2, 2, 0],
    [1, 1, 0, 0, 0, 1, 1, 0],
    [0, 0, 0, 0, 0, 0, 0, 0],
];

#[test]
fn test_pixel() {
    assert_eq!(get_pixelrow(0x7c, 0x7c), [0, 3, 3, 3, 3, 3, 0, 0]);
}

#[test]
fn ppu_test_pixel() {
    assert_eq!(get_pixelrow(0x7c, 0x7c), [0, 3, 3, 3, 3, 3, 0, 0]);
}

#[test]
fn get_pixel_a() {
    let a = LETTER_A;
    assert_eq!(get_tile(&a), LETTER_A_PIXELS);
}

#[test]
fn ppu_get_pixel_a() {
    let a = LETTER_A;
    assert_eq!(get_tile(&a), LETTER_A_PIXELS);
}

#[test]
fn pixel_row_planes_are_low_then_high() {
    assert_eq!(get_pixelrow(0x80, 0x00), [1, 0, 0, 0, 0, 0, 0, 0]);
    assert_eq!(get_pixelrow(0x00, 0x01), [0, 0, 0, 0, 0, 0, 0, 2]);
    assert_eq!(get_pixelrow(0xFF, 0xFF), [3; 8]);
}

#[test]
fn tileset_counts_whole_tiles() {
    let mut rom = LETTER_A.to_vec();
    rom.extend_from_slice(&[0u8; 20]);
    let tiles = load_tileset(&rom);
    assert_eq!(tiles.len(), 2);
    assert_eq!(tiles[0].data, LETTER_A_PIXELS);
    assert_eq!(tiles[1].data, [[0u8; 8]; 8]);
}

#[test]
fn tileset_stops_at_384_tiles() {
    let rom = vec![0u8; 16 * 400];
    assert_eq!(load_tileset(&rom).len(), 384);
    assert_eq!(load_tileset(&[0u8; 15]).len(), 0);
}

#[test]
fn lcd_registers_load_from_bits() {
    let mut ppu = PPU::new();
    assert_eq!(ppu.lcd.bg_palette, 0xE4);
    ppu.update_lcd_control(0x91);
    assert!(ppu.lcd.lcd_enabled);
    assert!(ppu.lcd.bg_window_tile_data);
    assert!(ppu.lcd.bg_window_priority);
    assert!(!ppu.lcd.window_enabled);
    ppu.update_lcd_status(0x48);
    assert!(ppu.lcd.lyc_interrupt);
    assert!(ppu.lcd.hblank_interrupt);
    assert!(!ppu.lcd.oam_interrupt);
    ppu.turn_lcd_off();
    assert!(!ppu.lcd.lcd_enabled);
    ppu.turn_lcd_on();
    assert!(ppu.lcd.lcd_enabled);
    assert!(!ppu.is_frame_ready());
}

#[test]
fn vram_write_refreshes_cached_tile_row() {
    let mut ppu = PPU::new();
    ppu.push_tile(Tile { data: [[0; 8]; 8] });
    ppu.update_tile(0x8002, 0x00);
    ppu.update_tile(0x8003, 0xC6);
    assert_eq!(ppu.vram[3], 0xC6);
    assert_eq!(ppu.tiles[0].data[1], [2, 2, 0, 0, 0, 2, 2, 0]);
    assert_eq!(ppu.tiles[0].data[0], [0; 8]);
}
