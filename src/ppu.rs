use vstd::prelude::*;

use crate::registers::bit_of;

verus! {

pub const SCREEN_WIDTH: u32 = 160;

pub const SCREEN_HEIGHT: u32 = 144;

pub const TILE_SIZE: u32 = 8;

/// Size of video RAM (0x8000-0x9FFF).
pub const VRAM_SIZE: usize = 0x2000;

/// Video RAM below this offset holds tile data (0x8000-0x97FF).
pub const TILE_DATA_SIZE: usize = 0x1800;

/// Bytes per tile: two per row of eight pixels.
pub const TILE_BYTES: usize = 16;

/// At most this many tiles are read from a tile set.
pub const MAX_TILES: usize = 384;

/// The value of bit `i` of `v`, as 0 or 1.
pub open spec fn bit_value(v: u8, i: int) -> int {
    if bit_of(v, i) {
        1
    } else {
        0
    }
}

/// The eight colour indices of a tile row whose bit planes are `b1` (low bit)
/// and `b2` (high bit); the leftmost pixel comes from bit 7.
pub open spec fn pixel_row(b1: u8, b2: u8) -> Seq<u8> {
    Seq::new(8, |i: int| (2 * bit_value(b2, 7 - i) + bit_value(b1, 7 - i)) as u8)
}

/// The eight rows of the tile whose sixteen bytes start at `off` in `bytes`.
pub open spec fn tile_rows(bytes: Seq<u8>, off: int) -> Seq<Seq<u8>> {
    Seq::new(8, |r: int| pixel_row(bytes[off + 2 * r], bytes[off + 2 * r + 1]))
}

/// Whether bit `i` of `v` is set.
pub fn test_bit(v: u8, i: u8) -> (r: bool)
    requires
        i < 8,
    ensures
        r == bit_of(v, i as int),
{
    match i {
        0 => v % 2 == 1,
        1 => (v / 2) % 2 == 1,
        2 => (v / 4) % 2 == 1,
        3 => (v / 8) % 2 == 1,
        4 => (v / 16) % 2 == 1,
        5 => (v / 32) % 2 == 1,
        6 => (v / 64) % 2 == 1,
        _ => (v / 128) % 2 == 1,
    }
}

/// An eight-by-eight tile of colour indices (0 to 3).
#[derive(Copy, Clone, Debug, PartialEq, Eq)]
pub struct Tile {
    pub data: [[u8; 8]; 8],
}

impl Tile {
    /// The tile's rows of colour indices.
    pub open spec fn pixels(self) -> Seq<Seq<u8>> {
        Seq::new(8, |r: int| self.data@[r]@)
    }
}

/// The LCD control, status, scroll and palette registers (0xFF40-0xFF4B).
#[derive(Copy, Clone, Debug, PartialEq, Eq, Structural)]
pub struct LcdRegisters {
    pub lcd_enabled: bool,
    pub window_tile_map: bool,
    pub window_enabled: bool,
    pub bg_window_tile_data: bool,
    pub bg_tile_map: bool,
    pub sprite_size: bool,
    pub sprites_enabled: bool,
    pub bg_window_priority: bool,
    pub lyc_interrupt: bool,
    pub oam_interrupt: bool,
    pub vblank_interrupt: bool,
    pub hblank_interrupt: bool,
    pub scroll_y: u8,
    pub scroll_x: u8,
    pub ly_compare: u8,
    pub window_y: u8,
    pub window_x: u8,
    pub bg_palette: u8,
    pub obj_palette0: u8,
    pub obj_palette1: u8,
}

impl LcdRegisters {
    /// The registers after LCDC (0xFF40) is written.
    pub open spec fn with_control(self, v: u8) -> LcdRegisters {
        LcdRegisters {
            lcd_enabled: bit_of(v, 7),
            window_tile_map: bit_of(v, 6),
            window_enabled: bit_of(v, 5),
            bg_window_tile_data: bit_of(v, 4),
            bg_tile_map: bit_of(v, 3),
            sprite_size: bit_of(v, 2),
            sprites_enabled: bit_of(v, 1),
            bg_window_priority: bit_of(v, 0),
            ..self
        }
    }

    /// The registers after STAT (0xFF41) is written; its mode and
    /// coincidence bits are read-only.
    pub open spec fn with_status(self, v: u8) -> LcdRegisters {
        LcdRegisters {
            lyc_interrupt: bit_of(v, 6),
            oam_interrupt: bit_of(v, 5),
            vblank_interrupt: bit_of(v, 4),
            hblank_interrupt: bit_of(v, 3),
            ..self
        }
    }

    /// The registers after the I/O register at `addr` is written with `v`.
    pub open spec fn after_write(self, addr: u16, v: u8) -> LcdRegisters {
        if addr == 0xFF40 {
            self.with_control(v)
        } else if addr == 0xFF41 {
            self.with_status(v)
        } else if addr == 0xFF42 {
            LcdRegisters { scroll_y: v, ..self }
        } else if addr == 0xFF43 {
            LcdRegisters { scroll_x: v, ..self }
        } else if addr == 0xFF45 {
            LcdRegisters { ly_compare: v, ..self }
        } else if addr == 0xFF47 {
            LcdRegisters { bg_palette: v, ..self }
        } else if addr == 0xFF48 {
            LcdRegisters { obj_palette0: v, ..self }
        } else if addr == 0xFF49 {
            LcdRegisters { obj_palette1: v, ..self }
        } else if addr == 0xFF4A {
            LcdRegisters { window_y: v, ..self }
        } else if addr == 0xFF4B {
            LcdRegisters { window_x: v, ..self }
        } else {
            self
        }
    }
}

/// The LCD registers at power-on: everything off, the usual background palette.
pub open spec fn initial_lcd() -> LcdRegisters {
    LcdRegisters {
        lcd_enabled: false,
        window_tile_map: false,
        window_enabled: false,
        bg_window_tile_data: false,
        bg_tile_map: false,
        sprite_size: false,
        sprites_enabled: false,
        bg_window_priority: false,
        lyc_interrupt: false,
        oam_interrupt: false,
        vblank_interrupt: false,
        hblank_interrupt: false,
        scroll_y: 0,
        scroll_x: 0,
        ly_compare: 0,
        window_y: 0,
        window_x: 0,
        bg_palette: 0xE4,
        obj_palette0: 0,
        obj_palette1: 0,
    }
}

/// The tile cache after video RAM offset `off` was written and video RAM
/// became `vram`: the row that holds the byte is decoded again.
pub open spec fn tiles_after_vram_write(tiles: Seq<Seq<Seq<u8>>>, vram: Seq<u8>, off: int) -> Seq<
    Seq<Seq<u8>>,
> {
    let idx = off / 16;
    let row = (off % 16) / 2;
    if off < TILE_DATA_SIZE && idx < tiles.len() {
        tiles.update(
            idx,
            tiles[idx].update(row, pixel_row(vram[idx * 16 + row * 2], vram[idx * 16 + row * 2 + 1])),
        )
    } else {
        tiles
    }
}

/// The picture processing unit's state as the memory bus sees it: video RAM,
/// the decoded tile cache and the LCD registers.
pub struct PPU {
    pub tiles: Vec<Tile>,
    pub vram: Vec<u8>,
    pub lcd: LcdRegisters,
    pub frame_ready: bool,
}

impl PPU {
    pub open spec fn wf(&self) -> bool {
        self.vram@.len() == VRAM_SIZE
    }

    /// The decoded tiles as rows of colour indices.
    pub open spec fn tile_view(&self) -> Seq<Seq<Seq<u8>>> {
        self.tiles@.map_values(|t: Tile| t.pixels())
    }

    pub fn new() -> (r: PPU)
        ensures
            r.wf(),
            r.tiles@.len() == 0,
            forall|i: int| 0 <= i < VRAM_SIZE ==> r.vram@[i] == 0,
            r.lcd == initial_lcd(),
            !r.is_frame_ready_spec(),
    {
        let mut vram: Vec<u8> = Vec::new();
        while vram.len() < VRAM_SIZE
            invariant
                vram@.len() <= VRAM_SIZE,
                forall|i: int| 0 <= i < vram@.len() ==> vram@[i] == 0,
            decreases VRAM_SIZE - vram@.len(),
        {
            vram.push(0);
        }
        PPU {
            tiles: Vec::new(),
            vram,
            lcd: LcdRegisters {
                lcd_enabled: false,
                window_tile_map: false,
                window_enabled: false,
                bg_window_tile_data: false,
                bg_tile_map: false,
                sprite_size: false,
                sprites_enabled: false,
                bg_window_priority: false,
                lyc_interrupt: false,
                oam_interrupt: false,
                vblank_interrupt: false,
                hblank_interrupt: false,
                scroll_y: 0,
                scroll_x: 0,
                ly_compare: 0,
                window_y: 0,
                window_x: 0,
                bg_palette: 0xE4,
                obj_palette0: 0,
                obj_palette1: 0,
            },
            frame_ready: false,
        }
    }

    pub fn push_tile(&mut self, t: Tile)
        ensures
            final(self).tiles@ == old(self).tiles@.push(t),
            final(self).vram@ == old(self).vram@,
            final(self).lcd == old(self).lcd,
    {
        self.tiles.push(t);
    }

    /// Loads LCDC (0xFF40).
    pub fn update_lcd_control(&mut self, value: u8)
        ensures
            final(self).lcd == old(self).lcd.with_control(value),
            final(self).tiles@ == old(self).tiles@,
            final(self).vram@ == old(self).vram@,
    {
        self.lcd.lcd_enabled = test_bit(value, 7);
        self.lcd.window_tile_map = test_bit(value, 6);
        self.lcd.window_enabled = test_bit(value, 5);
        self.lcd.bg_window_tile_data = test_bit(value, 4);
        self.lcd.bg_tile_map = test_bit(value, 3);
        self.lcd.sprite_size = test_bit(value, 2);
        self.lcd.sprites_enabled = test_bit(value, 1);
        self.lcd.bg_window_priority = test_bit(value, 0);
    }

    /// Loads the writable bits of STAT (0xFF41).
    pub fn update_lcd_status(&mut self, value: u8)
        ensures
            final(self).lcd == old(self).lcd.with_status(value),
            final(self).tiles@ == old(self).tiles@,
            final(self).vram@ == old(self).vram@,
    {
        self.lcd.lyc_interrupt = test_bit(value, 6);
        self.lcd.oam_interrupt = test_bit(value, 5);
        self.lcd.vblank_interrupt = test_bit(value, 4);
        self.lcd.hblank_interrupt = test_bit(value, 3);
    }

    pub fn set_scroll_y(&mut self, value: u8)
        ensures
            final(self).lcd == (LcdRegisters { scroll_y: value, ..old(self).lcd }),
            final(self).tiles@ == old(self).tiles@,
            final(self).vram@ == old(self).vram@,
    {
        self.lcd.scroll_y = value;
    }

    pub fn set_scroll_x(&mut self, value: u8)
        ensures
            final(self).lcd == (LcdRegisters { scroll_x: value, ..old(self).lcd }),
            final(self).tiles@ == old(self).tiles@,
            final(self).vram@ == old(self).vram@,
    {
        self.lcd.scroll_x = value;
    }

    pub fn set_ly_compare(&mut self, value: u8)
        ensures
            final(self).lcd == (LcdRegisters { ly_compare: value, ..old(self).lcd }),
            final(self).tiles@ == old(self).tiles@,
            final(self).vram@ == old(self).vram@,
    {
        self.lcd.ly_compare = value;
    }

    pub fn set_window_y(&mut self, value: u8)
        ensures
            final(self).lcd == (LcdRegisters { window_y: value, ..old(self).lcd }),
            final(self).tiles@ == old(self).tiles@,
            final(self).vram@ == old(self).vram@,
    {
        self.lcd.window_y = value;
    }

    pub fn set_window_x(&mut self, value: u8)
        ensures
            final(self).lcd == (LcdRegisters { window_x: value, ..old(self).lcd }),
            final(self).tiles@ == old(self).tiles@,
            final(self).vram@ == old(self).vram@,
    {
        self.lcd.window_x = value;
    }

    pub fn set_bg_palette(&mut self, value: u8)
        ensures
            final(self).lcd == (LcdRegisters { bg_palette: value, ..old(self).lcd }),
            final(self).tiles@ == old(self).tiles@,
            final(self).vram@ == old(self).vram@,
    {
        self.lcd.bg_palette = value;
    }

    pub fn set_obj_palette0(&mut self, value: u8)
        ensures
            final(self).lcd == (LcdRegisters { obj_palette0: value, ..old(self).lcd }),
            final(self).tiles@ == old(self).tiles@,
            final(self).vram@ == old(self).vram@,
    {
        self.lcd.obj_palette0 = value;
    }

    pub fn set_obj_palette1(&mut self, value: u8)
        ensures
            final(self).lcd == (LcdRegisters { obj_palette1: value, ..old(self).lcd }),
            final(self).tiles@ == old(self).tiles@,
            final(self).vram@ == old(self).vram@,
    {
        self.lcd.obj_palette1 = value;
    }

    /// Loads the LCD register at `address`, if it is one.
    #[verifier::rlimit(50)]
    pub fn write_lcd_register(&mut self, address: u16, value: u8)
        requires
            old(self).wf(),
        ensures
            final(self).wf(),
            final(self).vram@ == old(self).vram@,
            final(self).tiles@ == old(self).tiles@,
            final(self).lcd == old(self).lcd.after_write(address, value),
    {
        if address == 0xFF40 {
            self.update_lcd_control(value);
        } else if address == 0xFF41 {
            self.update_lcd_status(value);
        } else if address == 0xFF42 {
            self.set_scroll_y(value);
        } else if address == 0xFF43 {
            self.set_scroll_x(value);
        } else if address == 0xFF45 {
            self.set_ly_compare(value);
        } else if address == 0xFF47 {
            self.set_bg_palette(value);
        } else if address == 0xFF48 {
            self.set_obj_palette0(value);
        } else if address == 0xFF49 {
            self.set_obj_palette1(value);
        } else if address == 0xFF4A {
            self.set_window_y(value);
        } else if address == 0xFF4B {
            self.set_window_x(value);
        }
    }

    /// Stores a byte of video RAM (`address` in 0x8000-0x9FFF) and decodes
    /// again the cached tile row that holds it.
    pub fn update_tile(&mut self, address: u16, value: u8)
        requires
            old(self).wf(),
            0x8000 <= address < 0xA000,
        ensures
            final(self).wf(),
            final(self).vram@ == old(self).vram@.update(address - 0x8000, value),
            final(self).tile_view() == tiles_after_vram_write(
                old(self).tile_view(),
                final(self).vram@,
                address - 0x8000,
            ),
            final(self).tiles@.len() == old(self).tiles@.len(),
            final(self).lcd == old(self).lcd,
    {
        let off = (address - 0x8000) as usize;
        self.vram.set(off, value);
        let idx = off / TILE_BYTES;
        let row = (off % TILE_BYTES) / 2;
        if off < TILE_DATA_SIZE && idx < self.tiles.len() {
            let b1 = self.vram[idx * 16 + row * 2];
            let b2 = self.vram[idx * 16 + row * 2 + 1];
            let mut t = self.tiles[idx];
            let ghost before = t;
            t.data[row] = get_pixelrow(b1, b2);
            assert(t.pixels() =~= before.pixels().update(row as int, pixel_row(b1, b2)));
            let ghost old_tiles = self.tiles@;
            self.tiles.set(idx, t);
            assert(self.tile_view() =~= old(self).tile_view().update(
                idx as int,
                old(self).tile_view()[idx as int].update(row as int, pixel_row(b1, b2)),
            ));
        } else {
            assert(self.tile_view() =~= old(self).tile_view());
        }
    }

    /// Whether a finished frame waits to be shown.
    pub open spec fn is_frame_ready_spec(&self) -> bool {
        self.frame_ready
    }

    pub fn is_frame_ready(&self) -> (r: bool)
        ensures
            r == self.is_frame_ready_spec(),
    {
        self.frame_ready
    }

    pub fn turn_lcd_on(&mut self)
        ensures
            final(self).lcd == (LcdRegisters { lcd_enabled: true, ..old(self).lcd }),
            final(self).tiles@ == old(self).tiles@,
            final(self).vram@ == old(self).vram@,
    {
        self.lcd.lcd_enabled = true;
    }

    pub fn turn_lcd_off(&mut self)
        ensures
            final(self).lcd == (LcdRegisters { lcd_enabled: false, ..old(self).lcd }),
            final(self).tiles@ == old(self).tiles@,
            final(self).vram@ == old(self).vram@,
    {
        self.lcd.lcd_enabled = false;
    }
}

/// The colour indices of a tile row from its two bit-plane bytes.
pub fn get_pixelrow(b1: u8, b2: u8) -> (r: [u8; 8])
    ensures
        r@ == pixel_row(b1, b2),
{
    let mut c1: [u8; 8] = [0;8];
    let mut i: u8 = 0;
    while i < 8
        invariant
            i <= 8,
            forall|j: int| 0 <= j < i ==> c1@[j] == pixel_row(b1, b2)[j],
        decreases 8 - i,
    {
        let a1: u8 = if test_bit(b1, 7 - i) { 1 } else { 0 };
        let a2: u8 = if test_bit(b2, 7 - i) { 1 } else { 0 };
        c1[i as usize] = a2 * 2 + a1;
        i = i + 1;
    }
    assert(c1@ =~= pixel_row(b1, b2));
    c1
}

/// Decodes the tile whose sixteen bytes start at `off`.
fn tile_at(bytes: &[u8], off: usize) -> (r: [[u8; 8]; 8])
    requires
        off + TILE_BYTES <= bytes@.len(),
    ensures
        forall|k: int| 0 <= k < 8 ==> #[trigger] r@[k]@ == tile_rows(bytes@, off as int)[k],
{
    let mut cs: [[u8; 8]; 8] = [[0u8;8];8];
    let len = bytes.len();
    let mut i: usize = 0;
    while i < 8
        invariant
            i <= 8,
            len == bytes@.len(),
            off + TILE_BYTES <= len,
            forall|k: int| 0 <= k < i ==> #[trigger] cs@[k]@ == tile_rows(bytes@, off as int)[k],
        decreases 8 - i,
    {
        cs[i] = get_pixelrow(bytes[off + 2 * i], bytes[off + 2 * i + 1]);
        i = i + 1;
    }
    cs
}

/// Decodes an eight-by-eight tile from its first sixteen bytes.
pub fn get_tile(t1: &[u8]) -> (r: [[u8; 8]; 8])
    requires
        t1@.len() >= 16,
    ensures
        forall|k: int| 0 <= k < 8 ==> #[trigger] r@[k]@ == tile_rows(t1@, 0)[k],
{
    tile_at(t1, 0)
}

/// Decodes the tiles of a tile set: one for each whole sixteen bytes, at most
/// 384.
pub fn load_tileset(rom: &[u8]) -> (r: Vec<Tile>)
    ensures
        r@.len() == if rom@.len() / 16 < MAX_TILES {
            (rom@.len() / 16) as int
        } else {
            MAX_TILES as int
        },
        forall|i: int| 0 <= i < r@.len() ==> #[trigger] r@[i].pixels() == tile_rows(rom@, 16 * i),
{
    let mut tiles: Vec<Tile> = Vec::new();
    let len = rom.len();
    let n = len / TILE_BYTES;
    let max_tiles = if n < MAX_TILES { n } else { MAX_TILES };
    let mut i: usize = 0;
    let mut off: usize = 0;
    while i < max_tiles
        invariant
            max_tiles <= n,
            len == rom@.len(),
            n == rom@.len() / 16,
            i <= max_tiles,
            off == 16 * i,
            tiles@.len() == i,
            forall|j: int| 0 <= j < i ==> #[trigger] tiles@[j].pixels() == tile_rows(rom@, 16 * j),
        decreases max_tiles - i,
    {
        assert(off + 16 <= len) by (nonlinear_arith)
            requires
                off == 16 * i,
                i < n,
                n == len / 16,
        ;
        let data = tile_at(rom, off);
        let t = Tile { data };
        assert(t.pixels() =~= tile_rows(rom@, 16 * i));
        tiles.push(t);
        i = i + 1;
        off = off + TILE_BYTES;
    }
    tiles
}

} // verus!
