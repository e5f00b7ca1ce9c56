use vstd::prelude::*;

use crate::error::CpuError;

verus! {

/// The high byte of a 16-bit value.
pub open spec fn hi(x: u16) -> u8 {
    (x / 256) as u8
}

/// The low byte of a 16-bit value.
pub open spec fn lo(x: u16) -> u8 {
    (x % 256) as u8
}

/// `x` with its high byte replaced by `v`.
pub open spec fn with_hi(x: u16, v: u8) -> u16 {
    (v * 256 + x % 256) as u16
}

/// `x` with its low byte replaced by `v`.
pub open spec fn with_lo(x: u16, v: u8) -> u16 {
    ((x / 256) * 256 + v) as u16
}

/// Whether bit `i` (0 = least significant) of `v` is set.
pub open spec fn bit_of(v: u8, i: int) -> bool {
    (v as int / crate::registers::pow2_8(i)) % 2 == 1
}

/// `2^i` for the bit positions of a byte.
pub open spec fn pow2_8(i: int) -> int {
    if i <= 0 {
        1
    } else if i == 1 {
        2
    } else if i == 2 {
        4
    } else if i == 3 {
        8
    } else if i == 4 {
        16
    } else if i == 5 {
        32
    } else if i == 6 {
        64
    } else {
        128
    }
}

/// Names of the registers: the eight-bit halves and the sixteen-bit pairs.
#[derive(Copy, Clone, Debug, PartialEq, Eq, Structural)]
pub enum RegisterNames {
    A,
    B,
    C,
    D,
    E,
    H,
    L,
    AF,
    BC,
    DE,
    HL,
    SP,
    PC,
}

impl RegisterNames {
    /// The registers that have an eight-bit form.
    pub open spec fn is_8bit(self) -> bool {
        matches!(self, RegisterNames::A | RegisterNames::B | RegisterNames::C | RegisterNames::D
            | RegisterNames::E | RegisterNames::H | RegisterNames::L)
    }

    /// Whether the register is eight bits wide.
    pub fn is_byte_register(&self) -> (r: bool)
        ensures
            r == self.is_8bit(),
    {
        match self {
            RegisterNames::A | RegisterNames::B | RegisterNames::C | RegisterNames::D
            | RegisterNames::E | RegisterNames::H | RegisterNames::L => true,
            _ => false,
        }
    }
}

/// Names of the condition flags and of the negated conditions used by branches.
#[derive(Copy, Clone, Debug, PartialEq, Eq, Structural)]
pub enum FlagNames {
    Z,
    N,
    H,
    C,
    NZ,
    NC,
}

/// The four condition flags: zero, subtract, half-carry and carry.
#[derive(Copy, Clone, Debug, PartialEq, Eq, Structural)]
pub struct Flag {
    pub z: bool,
    pub n: bool,
    pub h: bool,
    pub c: bool,
}

impl Flag {
    /// The flags packed into the F register: Z, N, H, C in bits 7 to 4, the
    /// low nibble zero.
    pub open spec fn byte(self) -> u8 {
        ((if self.z { 128int } else { 0 }) + (if self.n { 64int } else { 0 }) + (if self.h {
            32int
        } else {
            0
        }) + (if self.c { 16int } else { 0 })) as u8
    }

    /// The flags that bits 7 to 4 of `v` stand for; its low nibble is ignored.
    pub open spec fn from_byte(v: u8) -> Flag {
        Flag {
            z: (v / 128) % 2 == 1,
            n: (v / 64) % 2 == 1,
            h: (v / 32) % 2 == 1,
            c: (v / 16) % 2 == 1,
        }
    }

    pub fn new() -> (r: Flag)
        ensures
            r == (Flag { z: false, n: false, h: false, c: false }),
    {
        Flag { z: false, n: false, h: false, c: false }
    }

    pub fn set_z(&mut self, value: bool)
        ensures
            *final(self) == (Flag { z: value, ..*old(self) }),
    {
        self.z = value;
    }

    pub fn set_n(&mut self, value: bool)
        ensures
            *final(self) == (Flag { n: value, ..*old(self) }),
    {
        self.n = value;
    }

    pub fn set_h(&mut self, value: bool)
        ensures
            *final(self) == (Flag { h: value, ..*old(self) }),
    {
        self.h = value;
    }

    pub fn set_c(&mut self, value: bool)
        ensures
            *final(self) == (Flag { c: value, ..*old(self) }),
    {
        self.c = value;
    }

    pub fn get_z(&self) -> (r: bool)
        ensures
            r == self.z,
    {
        self.z
    }

    pub fn get_n(&self) -> (r: bool)
        ensures
            r == self.n,
    {
        self.n
    }

    pub fn get_h(&self) -> (r: bool)
        ensures
            r == self.h,
    {
        self.h
    }

    pub fn get_c(&self) -> (r: bool)
        ensures
            r == self.c,
    {
        self.c
    }

    pub fn set_flags(&mut self, z: bool, n: bool, h: bool, c: bool)
        ensures
            *final(self) == (Flag { z, n, h, c }),
    {
        self.z = z;
        self.n = n;
        self.h = h;
        self.c = c;
    }

    pub fn get_flags(&self) -> (r: (bool, bool, bool, bool))
        ensures
            r == (self.z, self.n, self.h, self.c),
    {
        (self.z, self.n, self.h, self.c)
    }

    pub fn reset_flags(&mut self)
        ensures
            *final(self) == (Flag { z: false, n: false, h: false, c: false }),
    {
        self.z = false;
        self.n = false;
        self.h = false;
        self.c = false;
    }

    /// Loads the flags from an F register value: bits 7 to 4 give Z, N, H, C.
    pub fn set_flag_value(&mut self, value: u8)
        ensures
            *final(self) == Flag::from_byte(value),
    {
        let z = (value / 128) % 2 == 1;
        let n = (value / 64) % 2 == 1;
        let h = (value / 32) % 2 == 1;
        let c = (value / 16) % 2 == 1;
        self.set_flags(z, n, h, c);
    }

    /// The F register value of these flags.
    pub fn to_byte(&self) -> (r: u8)
        ensures
            r == self.byte(),
    {
        let mut r: u8 = 0;
        if self.z {
            r = r + 128;
        }
        if self.n {
            r = r + 64;
        }
        if self.h {
            r = r + 32;
        }
        if self.c {
            r = r + 16;
        }
        r
    }
}

/// The register file: four register pairs, the stack pointer, the program
/// counter and the flags.
///
/// A lives in the high byte of `af`, whose low byte the accessors keep at
/// zero; F is not stored apart from `flag`: its value is always
/// `flag.byte()`, so its low nibble is always zero.
#[derive(Copy, Clone, Debug, PartialEq, Eq, Structural)]
pub struct Registers {
    pub af: u16,
    pub bc: u16,
    pub de: u16,
    pub hl: u16,
    pub sp: u16,
    pub pc: u16,
    pub flag: Flag,
}

impl Registers {
    /// The F register.
    pub open spec fn f(self) -> u8 {
        self.flag.byte()
    }

    /// The value of an eight-bit register (`0` for a name without an eight-bit form).
    pub open spec fn get8(self, r: RegisterNames) -> u8 {
        match r {
            RegisterNames::A => hi(self.af),
            RegisterNames::B => hi(self.bc),
            RegisterNames::C => lo(self.bc),
            RegisterNames::D => hi(self.de),
            RegisterNames::E => lo(self.de),
            RegisterNames::H => hi(self.hl),
            RegisterNames::L => lo(self.hl),
            _ => 0,
        }
    }

    /// The value of a sixteen-bit register (`0` for an eight-bit name).
    pub open spec fn get16(self, r: RegisterNames) -> u16 {
        match r {
            RegisterNames::AF => (hi(self.af) * 256 + self.f()) as u16,
            RegisterNames::BC => self.bc,
            RegisterNames::DE => self.de,
            RegisterNames::HL => self.hl,
            RegisterNames::SP => self.sp,
            RegisterNames::PC => self.pc,
            _ => 0,
        }
    }

    /// The register file after writing `v` to an eight-bit register; the other
    /// half of its pair is kept.
    pub open spec fn with8(self, r: RegisterNames, v: u8) -> Registers {
        match r {
            RegisterNames::A => Registers { af: with_hi(self.af, v), ..self },
            RegisterNames::B => Registers { bc: with_hi(self.bc, v), ..self },
            RegisterNames::C => Registers { bc: with_lo(self.bc, v), ..self },
            RegisterNames::D => Registers { de: with_hi(self.de, v), ..self },
            RegisterNames::E => Registers { de: with_lo(self.de, v), ..self },
            RegisterNames::H => Registers { hl: with_hi(self.hl, v), ..self },
            RegisterNames::L => Registers { hl: with_lo(self.hl, v), ..self },
            _ => self,
        }
    }

    /// The register file after writing `v` to a sixteen-bit register. Writing
    /// AF keeps its high byte in `af` and loads the flags from bits 7 to 4 of
    /// its low byte.
    pub open spec fn with16(self, r: RegisterNames, v: u16) -> Registers {
        match r {
            RegisterNames::AF => Registers {
                af: (hi(v) * 256) as u16,
                flag: Flag::from_byte(lo(v)),
                ..self
            },
            RegisterNames::BC => Registers { bc: v, ..self },
            RegisterNames::DE => Registers { de: v, ..self },
            RegisterNames::HL => Registers { hl: v, ..self },
            RegisterNames::SP => Registers { sp: v, ..self },
            RegisterNames::PC => Registers { pc: v, ..self },
            _ => self,
        }
    }

    /// The register file with the flags replaced.
    pub open spec fn with_flags(self, z: bool, n: bool, h: bool, c: bool) -> Registers {
        Registers { flag: Flag { z, n, h, c }, ..self }
    }

    /// Whether a condition holds.
    pub open spec fn flag_value(self, f: FlagNames) -> bool {
        match f {
            FlagNames::Z => self.flag.z,
            FlagNames::N => self.flag.n,
            FlagNames::H => self.flag.h,
            FlagNames::C => self.flag.c,
            FlagNames::NZ => !self.flag.z,
            FlagNames::NC => !self.flag.c,
        }
    }

    /// The register file after the boot ROM has run.
    pub open spec fn boot() -> Registers {
        Registers {
            af: 0x0100,
            bc: 0x0013,
            de: 0x00D8,
            hl: 0x014D,
            sp: 0xFFFE,
            pc: 0x0100,
            flag: Flag { z: true, n: false, h: true, c: true },
        }
    }

    /// The register file after the boot ROM has run.
    pub fn new() -> (r: Registers)
        ensures
            r == Registers::boot(),
            r.get16(RegisterNames::AF) == 0x01B0,
            r.get16(RegisterNames::BC) == 0x0013,
            r.get16(RegisterNames::DE) == 0x00D8,
            r.get16(RegisterNames::HL) == 0x014D,
            r.sp == 0xFFFE,
            r.pc == 0x0100,
            r.flag == (Flag { z: true, n: false, h: true, c: true }),
    {
        Registers {
            af: 0x0100,
            bc: 0x0013,
            de: 0x00D8,
            hl: 0x014D,
            sp: 0xFFFE,
            pc: 0x0100,
            flag: Flag { z: true, n: false, h: true, c: true },
        }
    }

    /// Reads an eight-bit register; a pair has no eight-bit form.
    pub fn get_register_value_8(&self, register: RegisterNames) -> (r: Result<u8, CpuError>)
        ensures
            register.is_8bit() ==> r == Ok::<u8, CpuError>(self.get8(register)),
            !register.is_8bit() ==> r == Err::<u8, CpuError>(CpuError::InvalidOperandWidth(8, 16)),
    {
        match register {
            RegisterNames::A => Ok((self.af / 256) as u8),
            RegisterNames::B => Ok((self.bc / 256) as u8),
            RegisterNames::C => Ok((self.bc % 256) as u8),
            RegisterNames::D => Ok((self.de / 256) as u8),
            RegisterNames::E => Ok((self.de % 256) as u8),
            RegisterNames::H => Ok((self.hl / 256) as u8),
            RegisterNames::L => Ok((self.hl % 256) as u8),
            _ => Err(CpuError::InvalidOperandWidth(8, 16)),
        }
    }

    /// Writes an eight-bit register, keeping the other half of its pair.
    pub fn set_register_value_8(&mut self, register: RegisterNames, value: u8) -> (r: Result<
        (),
        CpuError,
    >)
        ensures
            register.is_8bit() ==> r == Ok::<(), CpuError>(()) && *final(self) == old(self).with8(register, value),
            !register.is_8bit() ==> r == Err::<(), CpuError>(CpuError::InvalidOperandWidth(8, 16))
                && *final(self) == *old(self),
    {
        let v = value as u16;
        match register {
            RegisterNames::A => self.af = v * 256 + self.af % 256,
            RegisterNames::B => self.bc = v * 256 + self.bc % 256,
            RegisterNames::C => self.bc = (self.bc / 256) * 256 + v,
            RegisterNames::D => self.de = v * 256 + self.de % 256,
            RegisterNames::E => self.de = (self.de / 256) * 256 + v,
            RegisterNames::H => self.hl = v * 256 + self.hl % 256,
            RegisterNames::L => self.hl = (self.hl / 256) * 256 + v,
            _ => return Err(CpuError::InvalidOperandWidth(8, 16)),
        }
        Ok(())
    }

    /// Reads a sixteen-bit register; AF reads back A and the packed flags.
    pub fn get_register_value_16(&self, register: RegisterNames) -> (r: Result<u16, CpuError>)
        ensures
            !register.is_8bit() ==> r == Ok::<u16, CpuError>(self.get16(register)),
            register.is_8bit() ==> r == Err::<u16, CpuError>(CpuError::InvalidOperandWidth(16, 8)),
    {
        match register {
            RegisterNames::AF => Ok((self.af / 256) * 256 + self.flag.to_byte() as u16),
            RegisterNames::BC => Ok(self.bc),
            RegisterNames::DE => Ok(self.de),
            RegisterNames::HL => Ok(self.hl),
            RegisterNames::SP => Ok(self.sp),
            RegisterNames::PC => Ok(self.pc),
            _ => Err(CpuError::InvalidOperandWidth(16, 8)),
        }
    }

    /// Writes a sixteen-bit register. Writing AF also loads the flags from
    /// bits 7 to 4 of the low byte, so F's low nibble stays zero.
    pub fn set_register_value_16(&mut self, register: RegisterNames, value: u16) -> (r: Result<
        (),
        CpuError,
    >)
        ensures
            !register.is_8bit() ==> r == Ok::<(), CpuError>(()) && *final(self) == old(self).with16(register, value),
            register.is_8bit() ==> r == Err::<(), CpuError>(CpuError::InvalidOperandWidth(16, 8))
                && *final(self) == *old(self),
    {
        match register {
            RegisterNames::AF => {
                self.af = (value / 256) * 256;
                self.flag.set_flag_value((value % 256) as u8);
            },
            RegisterNames::BC => self.bc = value,
            RegisterNames::DE => self.de = value,
            RegisterNames::HL => self.hl = value,
            RegisterNames::SP => self.sp = value,
            RegisterNames::PC => self.pc = value,
            _ => return Err(CpuError::InvalidOperandWidth(16, 8)),
        }
        Ok(())
    }

    /// Whether a condition holds; NZ and NC are the negations of Z and C.
    pub fn get_flag(&self, flag: &FlagNames) -> (r: bool)
        ensures
            r == self.flag_value(*flag),
    {
        match flag {
            FlagNames::Z => self.get_zero_flag(),
            FlagNames::H => self.get_half_carry_flag(),
            FlagNames::C => self.get_carry_flag(),
            FlagNames::N => self.get_subtract_flag(),
            FlagNames::NZ => !self.get_zero_flag(),
            FlagNames::NC => !self.get_carry_flag(),
        }
    }

    pub fn get_carry_flag(&self) -> (r: bool)
        ensures
            r == self.flag.c,
    {
        self.flag.get_c()
    }

    pub fn set_carry_flag(&mut self, value: bool)
        ensures
            *final(self) == (Registers { flag: Flag { c: value, ..old(self).flag }, ..*old(self) }),
    {
        self.flag.set_c(value);
    }

    pub fn get_zero_flag(&self) -> (r: bool)
        ensures
            r == self.flag.z,
    {
        self.flag.get_z()
    }

    pub fn set_zero_flag(&mut self, value: bool)
        ensures
            *final(self) == (Registers { flag: Flag { z: value, ..old(self).flag }, ..*old(self) }),
    {
        self.flag.set_z(value);
    }

    pub fn get_half_carry_flag(&self) -> (r: bool)
        ensures
            r == self.flag.h,
    {
        self.flag.get_h()
    }

    pub fn set_half_carry_flag(&mut self, value: bool)
        ensures
            *final(self) == (Registers { flag: Flag { h: value, ..old(self).flag }, ..*old(self) }),
    {
        self.flag.set_h(value);
    }

    pub fn get_subtract_flag(&self) -> (r: bool)
        ensures
            r == self.flag.n,
    {
        self.flag.get_n()
    }

    pub fn set_subtract_flag(&mut self, value: bool)
        ensures
            *final(self) == (Registers { flag: Flag { n: value, ..old(self).flag }, ..*old(self) }),
    {
        self.flag.set_n(value);
    }

    pub fn get_flags(&self) -> (r: (bool, bool, bool, bool))
        ensures
            r == (self.flag.z, self.flag.n, self.flag.h, self.flag.c),
    {
        self.flag.get_flags()
    }

    pub fn set_flags(&mut self, z: bool, n: bool, h: bool, c: bool)
        ensures
            *final(self) == old(self).with_flags(z, n, h, c),
    {
        self.flag.set_flags(z, n, h, c);
    }

    pub fn reset_flags(&mut self)
        ensures
            *final(self) == old(self).with_flags(false, false, false, false),
    {
        self.flag.reset_flags();
    }
}

/// F's low nibble is zero in every register-file state.
pub proof fn lemma_f_low_nibble_zero(regs: Registers)
    ensures
        regs.f() % 16 == 0,
        regs.get16(RegisterNames::AF) % 16 == 0,
{
}

/// Packing the flags into F and loading them back gives the same flags.
pub proof fn lemma_flag_byte_round_trip(f: Flag)
    ensures
        Flag::from_byte(f.byte()) == f,
{
}

/// Writing a register pair and reading it back gives the written value, save
/// for F's low nibble, which is always zero.
pub proof fn lemma_pair_write_read(regs: Registers, r: RegisterNames, v: u16)
    requires
        !r.is_8bit(),
    ensures
        r != RegisterNames::AF ==> regs.with16(r, v).get16(r) == v,
        r == RegisterNames::AF ==> regs.with16(r, v).get16(r) == v - v % 16,
{
    if r == RegisterNames::AF {
        let h = hi(v);
        let l = lo(v);
        assert(v == h * 256 + l);
        assert(hi((h * 256) as u16) == h);
        assert(Flag::from_byte(l).byte() == l - l % 16) by {
            lemma_from_byte_keeps_top_nibble(l);
        }
        assert(l % 16 == v % 16);
    }
}

/// Loading flags from a byte and packing them again keeps its top nibble and
/// clears its low one.
proof fn lemma_from_byte_keeps_top_nibble(x: u8)
    ensures
        Flag::from_byte(x).byte() == x - x % 16,
{
    let t = x / 16;
    assert(x == t * 16 + x % 16);
    assert(t < 16);
    assert((x / 128) % 2 == (t / 8) % 2);
    assert((x / 64) % 2 == (t / 4) % 2);
    assert((x / 32) % 2 == (t / 2) % 2);
    assert(t == 8 * ((t / 8) % 2) + 4 * ((t / 4) % 2) + 2 * ((t / 2) % 2) + t % 2);
}

/// Writing an eight-bit register keeps the other half of its pair.
pub proof fn lemma_half_write_keeps_other_half(regs: Registers, r: RegisterNames, v: u8)
    requires
        r.is_8bit(),
    ensures
        regs.with8(r, v).get8(r) == v,
        forall|q: RegisterNames| q.is_8bit() && q != r ==> #[trigger] regs.with8(r, v).get8(q)
            == regs.get8(q),
{
}

} // verus!
