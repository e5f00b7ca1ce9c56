use vstd::prelude::*;

use crate::registers::{bit_of, pow2_8, Flag};

verus! {

// The ALU proper: pure functions from operand values and the incoming flags to
// a result and the outgoing flags.

/// Eight-bit addition with an optional carry in (ADD, ADC).
pub open spec fn spec_add8(a: u8, b: u8, cin: bool) -> (u8, Flag) {
    let c: int = if cin { 1 } else { 0 };
    let res = ((a + b + c) % 256) as u8;
    (res, Flag { z: res == 0, n: false, h: (a % 16) + (b % 16) + c > 15, c: a + b + c > 255 })
}

/// Eight-bit subtraction with an optional borrow in (SUB, SBC, CP).
pub open spec fn spec_sub8(a: u8, b: u8, cin: bool) -> (u8, Flag) {
    let c: int = if cin { 1 } else { 0 };
    let res = ((a - b - c + 512) % 256) as u8;
    (res, Flag { z: res == 0, n: true, h: (a % 16) < (b % 16) + c, c: a < b + c })
}

/// Bitwise AND: Z from the result, H set, N and C clear.
pub open spec fn spec_and8(a: u8, b: u8) -> (u8, Flag) {
    let res = a & b;
    (res, Flag { z: res == 0, n: false, h: true, c: false })
}

/// Bitwise OR: Z from the result, the other flags clear.
pub open spec fn spec_or8(a: u8, b: u8) -> (u8, Flag) {
    let res = a | b;
    (res, Flag { z: res == 0, n: false, h: false, c: false })
}

/// Bitwise XOR: Z from the result, the other flags clear.
pub open spec fn spec_xor8(a: u8, b: u8) -> (u8, Flag) {
    let res = a ^ b;
    (res, Flag { z: res == 0, n: false, h: false, c: false })
}

/// Eight-bit increment: H when the low nibble was 0xF; C is kept.
pub open spec fn spec_inc8(v: u8, f: Flag) -> (u8, Flag) {
    let res = ((v + 1) % 256) as u8;
    (res, Flag { z: res == 0, n: false, h: v % 16 == 15, c: f.c })
}

/// Eight-bit decrement: H when the low nibble was 0x0; C is kept.
pub open spec fn spec_dec8(v: u8, f: Flag) -> (u8, Flag) {
    let res = ((v + 255) % 256) as u8;
    (res, Flag { z: res == 0, n: true, h: v % 16 == 0, c: f.c })
}

/// The flags of the rotate and shift family: Z from the result, C the bit
/// shifted out.
pub open spec fn shift_flags(res: u8, out: bool) -> Flag {
    Flag { z: res == 0, n: false, h: false, c: out }
}

/// Rotate left; bit 7 goes to bit 0 and to C.
pub open spec fn spec_rlc(v: u8) -> (u8, Flag) {
    let res = ((v * 2) % 256 + v / 128) as u8;
    (res, shift_flags(res, v >= 128))
}

/// Rotate right; bit 0 goes to bit 7 and to C.
pub open spec fn spec_rrc(v: u8) -> (u8, Flag) {
    let res = (v / 2 + (v % 2) * 128) as u8;
    (res, shift_flags(res, v % 2 == 1))
}

/// Rotate left through the carry.
pub open spec fn spec_rl(v: u8, f: Flag) -> (u8, Flag) {
    let res = ((v * 2) % 256 + (if f.c { 1int } else { 0 })) as u8;
    (res, shift_flags(res, v >= 128))
}

/// Rotate right through the carry.
pub open spec fn spec_rr(v: u8, f: Flag) -> (u8, Flag) {
    let res = (v / 2 + (if f.c { 128int } else { 0 })) as u8;
    (res, shift_flags(res, v % 2 == 1))
}

/// Shift left; bit 0 becomes zero.
pub open spec fn spec_sla(v: u8) -> (u8, Flag) {
    let res = ((v * 2) % 256) as u8;
    (res, shift_flags(res, v >= 128))
}

/// Arithmetic shift right; bit 7 is kept.
pub open spec fn spec_sra(v: u8) -> (u8, Flag) {
    let res = (v / 2 + (v / 128) * 128) as u8;
    (res, shift_flags(res, v % 2 == 1))
}

/// Logical shift right; bit 7 becomes zero.
pub open spec fn spec_srl(v: u8) -> (u8, Flag) {
    let res = (v / 2) as u8;
    (res, shift_flags(res, v % 2 == 1))
}

/// Exchange of the two nibbles; C is cleared.
pub open spec fn spec_swap(v: u8) -> (u8, Flag) {
    let res = ((v % 16) * 16 + v / 16) as u8;
    (res, shift_flags(res, false))
}

/// BIT n: Z when the bit is clear, N clear, H set, C kept.
pub open spec fn spec_bit(v: u8, n: u8, f: Flag) -> Flag {
    Flag { z: !bit_of(v, n as int), n: false, h: true, c: f.c }
}

/// SET n: the bit set, the others kept.
pub open spec fn spec_set(v: u8, n: u8) -> u8 {
    if bit_of(v, n as int) {
        v
    } else {
        (v + pow2_8(n as int)) as u8
    }
}

/// RES n: the bit cleared, the others kept.
pub open spec fn spec_res(v: u8, n: u8) -> u8 {
    if bit_of(v, n as int) {
        (v - pow2_8(n as int)) as u8
    } else {
        v
    }
}

/// Sixteen-bit addition (ADD HL,rr): Z kept, N clear, H from bit 11, C from bit 15.
pub open spec fn spec_add16(a: u16, b: u16, f: Flag) -> (u16, Flag) {
    let res = ((a + b) % 65536) as u16;
    (res, Flag { z: f.z, n: false, h: (a % 4096) + (b % 4096) > 4095, c: a + b > 65535 })
}

/// Sixteen-bit subtraction: Z from the result, N set, H borrow into bit 12,
/// C borrow.
pub open spec fn spec_sub16(a: u16, b: u16) -> (u16, Flag) {
    let res = ((a - b + 65536) % 65536) as u16;
    (res, Flag { z: res == 0, n: true, h: (a % 4096) < (b % 4096), c: a < b })
}

/// Decimal adjust of A after a BCD addition (N clear) or subtraction (N set).
pub open spec fn spec_daa(a: u8, f: Flag) -> (u8, Flag) {
    if f.n {
        let hi_adj: int = if f.c { 0x60 } else { 0 };
        let lo_adj: int = if f.h { 0x06 } else { 0 };
        let res = ((a - hi_adj - lo_adj + 256) % 256) as u8;
        (res, Flag { z: res == 0, n: true, h: false, c: f.c })
    } else {
        let carry = f.c || a > 0x99;
        let hi_adj: int = if carry { 0x60 } else { 0 };
        let lo_adj: int = if f.h || a % 16 > 9 { 0x06 } else { 0 };
        let res = ((a + hi_adj + lo_adj) % 256) as u8;
        (res, Flag { z: res == 0, n: false, h: false, c: carry })
    }
}

/// 2^n for a bit position of a byte.
pub fn bit_mask(n: u8) -> (r: u8)
    requires
        n < 8,
    ensures
        r == pow2_8(n as int),
{
    match n {
        0 => 1,
        1 => 2,
        2 => 4,
        3 => 8,
        4 => 16,
        5 => 32,
        6 => 64,
        _ => 128,
    }
}

pub fn add8(a: u8, b: u8, cin: bool) -> (r: (u8, Flag))
    ensures
        r == spec_add8(a, b, cin),
{
    let c: u16 = if cin { 1 } else { 0 };
    let sum: u16 = a as u16 + b as u16 + c;
    let res = (sum % 256) as u8;
    (res, Flag { z: res == 0, n: false, h: (a % 16) as u16 + (b % 16) as u16 + c > 15, c: sum > 255 })
}

pub fn sub8(a: u8, b: u8, cin: bool) -> (r: (u8, Flag))
    ensures
        r == spec_sub8(a, b, cin),
{
    let c: u16 = if cin { 1 } else { 0 };
    let res = ((a as u16 + 512 - b as u16 - c) % 256) as u8;
    (res, Flag { z: res == 0, n: true, h: ((a % 16) as u16) < (b % 16) as u16 + c, c: (a as u16) < b as u16 + c })
}

pub fn and8(a: u8, b: u8) -> (r: (u8, Flag))
    ensures
        r == spec_and8(a, b),
{
    let res = a & b;
    (res, Flag { z: res == 0, n: false, h: true, c: false })
}

pub fn or8(a: u8, b: u8) -> (r: (u8, Flag))
    ensures
        r == spec_or8(a, b),
{
    let res = a | b;
    (res, Flag { z: res == 0, n: false, h: false, c: false })
}

pub fn xor8(a: u8, b: u8) -> (r: (u8, Flag))
    ensures
        r == spec_xor8(a, b),
{
    let res = a ^ b;
    (res, Flag { z: res == 0, n: false, h: false, c: false })
}

pub fn inc8(v: u8, f: Flag) -> (r: (u8, Flag))
    ensures
        r == spec_inc8(v, f),
{
    let res = v.wrapping_add(1);
    (res, Flag { z: res == 0, n: false, h: v % 16 == 15, c: f.c })
}

pub fn dec8(v: u8, f: Flag) -> (r: (u8, Flag))
    ensures
        r == spec_dec8(v, f),
{
    let res = v.wrapping_sub(1);
    (res, Flag { z: res == 0, n: true, h: v % 16 == 0, c: f.c })
}

pub fn rlc8(v: u8) -> (r: (u8, Flag))
    ensures
        r == spec_rlc(v),
{
    let res = ((v as u16 * 2) % 256) as u8 + v / 128;
    (res, Flag { z: res == 0, n: false, h: false, c: v >= 128 })
}

pub fn rrc8(v: u8) -> (r: (u8, Flag))
    ensures
        r == spec_rrc(v),
{
    let res = v / 2 + (v % 2) * 128;
    (res, Flag { z: res == 0, n: false, h: false, c: v % 2 == 1 })
}

pub fn rl8(v: u8, f: Flag) -> (r: (u8, Flag))
    ensures
        r == spec_rl(v, f),
{
    let res = ((v as u16 * 2) % 256) as u8 + if f.c { 1 } else { 0 };
    (res, Flag { z: res == 0, n: false, h: false, c: v >= 128 })
}

pub fn rr8(v: u8, f: Flag) -> (r: (u8, Flag))
    ensures
        r == spec_rr(v, f),
{
    let res = v / 2 + if f.c { 128 } else { 0 };
    (res, Flag { z: res == 0, n: false, h: false, c: v % 2 == 1 })
}

pub fn sla8(v: u8) -> (r: (u8, Flag))
    ensures
        r == spec_sla(v),
{
    let res = ((v as u16 * 2) % 256) as u8;
    (res, Flag { z: res == 0, n: false, h: false, c: v >= 128 })
}

pub fn sra8(v: u8) -> (r: (u8, Flag))
    ensures
        r == spec_sra(v),
{
    let res = v / 2 + (v / 128) * 128;
    (res, Flag { z: res == 0, n: false, h: false, c: v % 2 == 1 })
}

pub fn srl8(v: u8) -> (r: (u8, Flag))
    ensures
        r == spec_srl(v),
{
    let res = v / 2;
    (res, Flag { z: res == 0, n: false, h: false, c: v % 2 == 1 })
}

pub fn swap8(v: u8) -> (r: (u8, Flag))
    ensures
        r == spec_swap(v),
{
    let res = (v % 16) * 16 + v / 16;
    (res, Flag { z: res == 0, n: false, h: false, c: false })
}

pub fn add16(a: u16, b: u16, f: Flag) -> (r: (u16, Flag))
    ensures
        r == spec_add16(a, b, f),
{
    let sum: u32 = a as u32 + b as u32;
    let res = (sum % 65536) as u16;
    (res, Flag { z: f.z, n: false, h: (a % 4096) as u32 + (b % 4096) as u32 > 4095, c: sum > 65535 })
}

pub fn sub16(a: u16, b: u16) -> (r: (u16, Flag))
    ensures
        r == spec_sub16(a, b),
{
    let res = a.wrapping_sub(b);
    (res, Flag { z: res == 0, n: true, h: (a % 4096) < (b % 4096), c: a < b })
}

pub fn daa8(a: u8, f: Flag) -> (r: (u8, Flag))
    ensures
        r == spec_daa(a, f),
{
    if f.n {
        let mut res = a;
        if f.c {
            res = res.wrapping_sub(0x60);
        }
        if f.h {
            res = res.wrapping_sub(0x06);
        }
        (res, Flag { z: res == 0, n: true, h: false, c: f.c })
    } else {
        let carry = f.c || a > 0x99;
        let mut res = a;
        if carry {
            res = res.wrapping_add(0x60);
        }
        if f.h || a % 16 > 9 {
            res = res.wrapping_add(0x06);
        }
        (res, Flag { z: res == 0, n: false, h: false, c: carry })
    }
}

/// Setting a clear bit or clearing a set bit stays within a byte.
pub proof fn lemma_bit_bounds(v: u8, n: u8)
    requires
        n < 8,
    ensures
        !bit_of(v, n as int) ==> v + pow2_8(n as int) < 256,
        bit_of(v, n as int) ==> v >= pow2_8(n as int),
{
    if n == 0 {
    } else if n == 1 {
    } else if n == 2 {
    } else if n == 3 {
    } else if n == 4 {
    } else if n == 5 {
    } else if n == 6 {
    } else {
    }
}

/// In every eight-bit ALU operation Z is set exactly when the result is zero.
pub proof fn lemma_zero_flag_tracks_result(a: u8, b: u8, f: Flag)
    ensures
        spec_add8(a, b, f.c).1.z == (spec_add8(a, b, f.c).0 == 0),
        spec_sub8(a, b, f.c).1.z == (spec_sub8(a, b, f.c).0 == 0),
        spec_and8(a, b).1.z == (spec_and8(a, b).0 == 0),
        spec_or8(a, b).1.z == (spec_or8(a, b).0 == 0),
        spec_xor8(a, b).1.z == (spec_xor8(a, b).0 == 0),
        spec_inc8(a, f).1.z == (spec_inc8(a, f).0 == 0),
        spec_dec8(a, f).1.z == (spec_dec8(a, f).0 == 0),
        spec_rlc(a).1.z == (spec_rlc(a).0 == 0),
        spec_rrc(a).1.z == (spec_rrc(a).0 == 0),
        spec_rl(a, f).1.z == (spec_rl(a, f).0 == 0),
        spec_rr(a, f).1.z == (spec_rr(a, f).0 == 0),
        spec_sla(a).1.z == (spec_sla(a).0 == 0),
        spec_sra(a).1.z == (spec_sra(a).0 == 0),
        spec_srl(a).1.z == (spec_srl(a).0 == 0),
        spec_swap(a).1.z == (spec_swap(a).0 == 0),
        spec_daa(a, f).1.z == (spec_daa(a, f).0 == 0),
{
}

} // verus!
