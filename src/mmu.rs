use vstd::prelude::*;

use crate::ppu::{initial_lcd, tiles_after_vram_write, LcdRegisters, PPU, VRAM_SIZE};
use crate::registers::{hi, lo};

verus! {

/// Size of the address space.
pub const MEMORY_SIZE: usize = 0x10000;

/// Size of the two ROM banks (0x0000-0x7FFF).
pub const ROM_SIZE: usize = 0x8000;

/// The address after `a`, wrapping from 0xFFFF to 0x0000.
pub open spec fn next_addr(a: u16) -> u16 {
    ((a as int + 1) % 0x10000) as u16
}

/// The byte of the loaded image at `i`: the first 0x8000 bytes of the ROM,
/// zero elsewhere.
pub open spec fn initial_byte(rom: Seq<u8>, i: int) -> u8 {
    if i < ROM_SIZE && i < rom.len() {
        rom[i]
    } else {
        0
    }
}

/// What the memory bus holds: the backing store of every address but video
/// RAM, video RAM, the decoded tile cache and the LCD registers.
pub struct MemoryView {
    pub mem: Seq<u8>,
    pub vram: Seq<u8>,
    pub tiles: Seq<Seq<Seq<u8>>>,
    pub lcd: LcdRegisters,
}

impl MemoryView {
    /// The byte read at `a`. Echo RAM (0xE000-0xFDFF) mirrors work RAM and the
    /// unusable range (0xFEA0-0xFEFF) reads as zero.
    pub open spec fn read(self, a: u16) -> u8 {
        if a < 0x8000 {
            self.mem[a as int]
        } else if a < 0xA000 {
            self.vram[a - 0x8000]
        } else if a < 0xE000 {
            self.mem[a as int]
        } else if a < 0xFE00 {
            self.mem[a - 0x2000]
        } else if a < 0xFEA0 {
            self.mem[a as int]
        } else if a < 0xFF00 {
            0
        } else {
            self.mem[a as int]
        }
    }

    /// The bus after `v` is written at `a`. Writes to ROM and to the unusable
    /// range are ignored; a write to video RAM decodes its tile row again; a
    /// write to an LCD register loads it.
    #[verifier::opaque]
    pub open spec fn write(self, a: u16, v: u8) -> MemoryView {
        if a < 0x8000 {
            self
        } else if a < 0xA000 {
            let vram = self.vram.update(a - 0x8000, v);
            MemoryView {
                vram,
                tiles: tiles_after_vram_write(self.tiles, vram, a - 0x8000),
                ..self
            }
        } else if a < 0xE000 {
            MemoryView { mem: self.mem.update(a as int, v), ..self }
        } else if a < 0xFE00 {
            MemoryView { mem: self.mem.update(a - 0x2000, v), ..self }
        } else if a < 0xFEA0 {
            MemoryView { mem: self.mem.update(a as int, v), ..self }
        } else if a < 0xFF00 {
            self
        } else {
            MemoryView { mem: self.mem.update(a as int, v), lcd: self.lcd.after_write(a, v), ..self }
        }
    }

    /// The little-endian word at `a`: low byte at `a`, high byte at the next address.
    pub open spec fn read_word(self, a: u16) -> u16 {
        (self.read(a) + 256 * self.read(next_addr(a))) as u16
    }

    /// The bus after the little-endian word `v` is written at `a`.
    pub open spec fn write_word(self, a: u16, v: u16) -> MemoryView {
        self.write(a, lo(v)).write(next_addr(a), hi(v))
    }

    /// The sizes of the backing store and of video RAM.
    pub open spec fn wf(self) -> bool {
        self.mem.len() == MEMORY_SIZE && self.vram.len() == VRAM_SIZE
    }

    /// The storage cell behind address `a`: echo RAM shares work RAM's cells.
    pub open spec fn cell(a: u16) -> int {
        if 0xE000 <= a < 0xFE00 {
            a - 0x2000
        } else {
            a as int
        }
    }

    /// Whether a write at `a` is stored (not ROM, not the unusable range).
    pub open spec fn writable(a: u16) -> bool {
        (0x8000 <= a < 0xFEA0) || 0xFF00 <= a
    }
}

/// The memory bus: ROM, RAM, I/O registers and the picture processing unit.
pub struct MMU {
    pub mem: Vec<u8>,
    pub ppu: PPU,
}

/// A byte written where writes are stored reads back, and every address
/// behind another storage cell keeps its byte.
pub proof fn lemma_write_then_read(m: MemoryView, a: u16, b: u16, v: u8)
    requires
        m.wf(),
        MemoryView::writable(a),
    ensures
        m.write(a, v).read(a) == v,
        MemoryView::cell(b) != MemoryView::cell(a) ==> m.write(a, v).read(b) == m.read(b),
        m.write(a, v).wf(),
{
    reveal(MemoryView::write);
}

/// A word written at `a` reads back when both of its bytes are stored.
pub proof fn lemma_word_write_then_read(m: MemoryView, a: u16, v: u16)
    requires
        m.wf(),
        MemoryView::writable(a),
        MemoryView::writable(next_addr(a)),
    ensures
        m.write_word(a, v).read_word(a) == v,
{
    let b = next_addr(a);
    let m1 = m.write(a, lo(v));
    lemma_write_then_read(m, a, a, lo(v));
    lemma_write_then_read(m1, b, a, hi(v));
    lemma_write_then_read(m1, b, b, hi(v));
}

impl View for MMU {
    type V = MemoryView;

    open spec fn view(&self) -> MemoryView {
        MemoryView {
            mem: self.mem@,
            vram: self.ppu.vram@,
            tiles: self.ppu.tile_view(),
            lcd: self.ppu.lcd,
        }
    }
}

impl MMU {
    pub open spec fn wf(&self) -> bool {
        self.mem@.len() == MEMORY_SIZE && self.ppu.wf()
    }

    /// A bus holding the first 0x8000 bytes of `rom` in its ROM banks, every
    /// other byte zero.
    pub fn new(rom: Vec<u8>) -> (r: MMU)
        ensures
            r.wf(),
            forall|i: int| 0 <= i < MEMORY_SIZE ==> #[trigger] r@.mem[i] == initial_byte(rom@, i),
            forall|i: int| 0 <= i < VRAM_SIZE ==> #[trigger] r@.vram[i] == 0,
            r@.tiles.len() == 0,
            r.ppu.lcd == initial_lcd(),
    {
        let mut mem: Vec<u8> = Vec::new();
        while mem.len() < MEMORY_SIZE
            invariant
                mem@.len() <= MEMORY_SIZE,
                forall|i: int| 0 <= i < mem@.len() ==> #[trigger] mem@[i] == initial_byte(rom@, i),
            decreases MEMORY_SIZE - mem@.len(),
        {
            let i = mem.len();
            if i < ROM_SIZE && i < rom.len() {
                mem.push(rom[i]);
            } else {
                mem.push(0);
            }
        }
        let ppu = PPU::new();
        let r = MMU { mem, ppu };
        assert(r@.tiles =~= Seq::<Seq<Seq<u8>>>::empty());
        r
    }

    /// Reads a byte from the bus.
    pub fn read(&self, address: u16) -> (r: u8)
        requires
            self.wf(),
        ensures
            r == self@.read(address),
    {
        if address < 0x8000 {
            self.mem[address as usize]
        } else if address < 0xA000 {
            self.ppu.vram[(address - 0x8000) as usize]
        } else if address < 0xE000 {
            self.mem[address as usize]
        } else if address < 0xFE00 {
            self.mem[(address - 0x2000) as usize]
        } else if address < 0xFEA0 {
            self.mem[address as usize]
        } else if address < 0xFF00 {
            0
        } else {
            self.mem[address as usize]
        }
    }

    /// Writes a byte to the bus.
    pub fn write(&mut self, address: u16, value: u8)
        requires
            old(self).wf(),
        ensures
            final(self).wf(),
            final(self)@ == old(self)@.write(address, value),
    {
        if address < 0x8000 {
            // ROM: writes are ignored
        } else if address < 0xA000 {
            self.ppu.update_tile(address, value);
        } else if address < 0xE000 {
            self.mem.set(address as usize, value);
        } else if address < 0xFE00 {
            self.mem.set((address - 0x2000) as usize, value);
        } else if address < 0xFEA0 {
            self.mem.set(address as usize, value);
        } else if address < 0xFF00 {
            // unusable range: writes are ignored
        } else {
            self.mem.set(address as usize, value);
            self.ppu.write_lcd_register(address, value);
        }
        reveal(MemoryView::write);
        assert(self@ =~= old(self)@.write(address, value));
    }

    /// Reads a little-endian word: the low byte at `address`, the high byte at
    /// the next address (wrapping at the top of memory).
    pub fn read_word(&self, address: u16) -> (r: u16)
        requires
            self.wf(),
        ensures
            r == self@.read_word(address),
    {
        let low = self.read(address);
        let high = self.read(address.wrapping_add(1));
        (high as u16) * 256 + (low as u16)
    }

    /// Writes a little-endian word: the low byte at `address`, the high byte
    /// at the next address (wrapping at the top of memory).
    pub fn write_word(&mut self, address: u16, value: u16)
        requires
            old(self).wf(),
        ensures
            final(self).wf(),
            final(self)@ == old(self)@.write_word(address, value),
    {
        self.write(address, (value % 256) as u8);
        self.write(address.wrapping_add(1), (value / 256) as u8);
    }

    /// Reads the instruction stream: ROM below 0x8000, zero above.
    pub fn read_rom(&self, address: u16) -> (r: u8)
        requires
            self.wf(),
        ensures
            r == (if address < 0x8000 {
                self@.mem[address as int]
            } else {
                0
            }),
    {
        if address < 0x8000 {
            self.mem[address as usize]
        } else {
            0
        }
    }

    pub fn get_ppu(&self) -> (r: &PPU)
        ensures
            *r == self.ppu,
    {
        &self.ppu
    }

    pub fn get_ppu_mut(&mut self) -> (r: &mut PPU)
        ensures
            *r == old(self).ppu,
            final(self).ppu == *final(r),
            final(self).mem == old(self).mem,
    {
        &mut self.ppu
    }
}

} // verus!
