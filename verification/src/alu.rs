//! Arithmetic and logic: the 8- and 16-bit operations with their flag
//! results, the decimal adjust, and the rotate/shift family.
use vstd::prelude::*;

verus! {

/// Packs the four ALU flag results into a flag-register byte:
/// Z in bit 7, N in bit 6, H in bit 5, C in bit 4, low nibble zero.
pub open spec fn flags_to_f(z: bool, n: bool, h: bool, c: bool) -> u8 {
    ((if z { 128int } else { 0int }) + (if n { 64int } else { 0int }) + (if h {
        32int
    } else {
        0int
    }) + (if c { 16int } else { 0int })) as u8
}

/// Result of an 8-bit ALU operation: the value and the new flag byte.
pub struct Alu8 {
    pub val: u8,
    pub f: u8,
}

/// 8-bit addition with optional carry-in. Half-carry is the carry out of
/// bit 3, carry the carry out of bit 7.
pub open spec fn spec_add(a: u8, b: u8, cin: bool) -> Alu8 {
    let cv = if cin { 1int } else { 0int };
    let sum = a as int + b as int + cv;
    let val = (sum % 256) as u8;
    Alu8 {
        val,
        f: flags_to_f(
            val == 0,
            false,
            (a as int % 16) + (b as int % 16) + cv > 15,
            sum > 255,
        ),
    }
}

/// 8-bit subtraction with optional borrow-in. Half-carry is the borrow out
/// of bit 4, carry the borrow out of bit 8.
pub open spec fn spec_sub(a: u8, b: u8, cin: bool) -> Alu8 {
    let cv = if cin { 1int } else { 0int };
    let diff = a as int - b as int - cv;
    let val = ((diff + 256) % 256) as u8;
    Alu8 {
        val,
        f: flags_to_f(
            val == 0,
            true,
            (a as int % 16) - (b as int % 16) - cv < 0,
            diff < 0,
        ),
    }
}

pub open spec fn spec_and(a: u8, b: u8) -> Alu8 {
    let val = a & b;
    Alu8 { val, f: flags_to_f(val == 0, false, true, false) }
}

pub open spec fn spec_xor(a: u8, b: u8) -> Alu8 {
    let val = a ^ b;
    Alu8 { val, f: flags_to_f(val == 0, false, false, false) }
}

pub open spec fn spec_or(a: u8, b: u8) -> Alu8 {
    let val = a | b;
    Alu8 { val, f: flags_to_f(val == 0, false, false, false) }
}

/// INC: adds one, never touches C (`oldf` supplies the preserved carry bit).
pub open spec fn spec_inc(v: u8, oldf: u8) -> Alu8 {
    let val = ((v as int + 1) % 256) as u8;
    Alu8 {
        val,
        f: flags_to_f(val == 0, false, v as int % 16 == 15, oldf & 0x10 != 0),
    }
}

/// DEC: subtracts one, never touches C.
pub open spec fn spec_dec(v: u8, oldf: u8) -> Alu8 {
    let val = ((v as int + 255) % 256) as u8;
    Alu8 {
        val,
        f: flags_to_f(val == 0, true, v as int % 16 == 0, oldf & 0x10 != 0),
    }
}

/// Decimal adjust after a BCD addition or subtraction. Corrections follow the
/// N, H and C flags and the current value of A; Z is recomputed from the
/// result, H is always cleared, N is preserved.
pub open spec fn spec_daa(a: u8, oldf: u8) -> Alu8 {
    let n = oldf & 0x40 != 0;
    let h = oldf & 0x20 != 0;
    let c = oldf & 0x10 != 0;
    if !n {
        let carry_out = c || a > 0x99;
        let adj = (if h || a as int % 16 > 9 { 0x06int } else { 0int }) + (if carry_out {
            0x60int
        } else {
            0int
        });
        let val = ((a as int + adj) % 256) as u8;
        Alu8 { val, f: flags_to_f(val == 0, false, false, carry_out) }
    } else {
        let adj = (if h { 0x06int } else { 0int }) + (if c { 0x60int } else { 0int });
        let val = ((a as int - adj + 256) % 256) as u8;
        Alu8 { val, f: flags_to_f(val == 0, true, false, c) }
    }
}

/// Rotate left circular: bit 7 moves into both bit 0 and the carry.
pub open spec fn spec_rlc(v: u8) -> (u8, bool) {
    ((((v as int % 128) * 2 + v as int / 128)) as u8, v >= 128)
}

/// Rotate left through carry: the old carry becomes bit 0, bit 7 the new carry.
pub open spec fn spec_rl(v: u8, cin: bool) -> (u8, bool) {
    ((((v as int % 128) * 2 + if cin { 1int } else { 0int })) as u8, v >= 128)
}

/// Rotate right circular: bit 0 moves into both bit 7 and the carry.
pub open spec fn spec_rrc(v: u8) -> (u8, bool) {
    (((v as int / 2 + (v as int % 2) * 128)) as u8, v as int % 2 == 1)
}

/// Rotate right through carry: the old carry becomes bit 7, bit 0 the new carry.
pub open spec fn spec_rr(v: u8, cin: bool) -> (u8, bool) {
    (((v as int / 2 + if cin { 128int } else { 0int })) as u8, v as int % 2 == 1)
}

/// Arithmetic shift left: bit 7 to carry, zero into bit 0.
pub open spec fn spec_sla(v: u8) -> (u8, bool) {
    (((v as int % 128) * 2) as u8, v >= 128)
}

/// Arithmetic shift right: bit 0 to carry, bit 7 duplicated.
pub open spec fn spec_sra(v: u8) -> (u8, bool) {
    ((v as int / 2 + (v as int / 128) * 128) as u8, v as int % 2 == 1)
}

/// Logical shift right: bit 0 to carry, zero into bit 7.
pub open spec fn spec_srl(v: u8) -> (u8, bool) {
    ((v as int / 2) as u8, v as int % 2 == 1)
}

/// Swap the two nibbles; all flags but Z end up clear.
pub open spec fn spec_swap(v: u8) -> u8 {
    ((v as int % 16) * 16 + v as int / 16) as u8
}

/// 16-bit addition for ADD HL,rr: half-carry out of bit 11, carry out of
/// bit 15, N cleared, Z untouched.
pub open spec fn spec_add16(a: u16, b: u16) -> (u16, bool, bool) {
    let sum = a as int + b as int;
    ((sum % 65536) as u16, (a as int % 4096) + (b as int % 4096) > 4095, sum > 65535)
}

/// SP plus a signed 8-bit displacement (for ADD SP,i8 and LD HL,SP+i8):
/// half-carry and carry come from bits 3 and 7 of the unsigned low-byte add;
/// Z and N are cleared.
pub open spec fn spec_add_sp(sp: u16, d: u8) -> (u16, bool, bool) {
    let off = if d >= 128 { d as int - 256 } else { d as int };
    let val = ((sp as int + off + 65536) % 65536) as u16;
    let h = (sp as int % 16) + (d as int % 16) > 15;
    let c = (sp as int % 256) + d as int > 255;
    (val, h, c)
}

/// Signed relative-jump target: PC plus the sign-extended displacement.
pub open spec fn spec_rel_target(pc: u16, d: u8) -> u16 {
    let off = if d >= 128 { d as int - 256 } else { d as int };
    ((pc as int + off + 65536) % 65536) as u16
}

/// The packed flag byte has a clear low nibble, and each flag bit reads
/// back the bool it was packed from.
pub proof fn lemma_flags_f(z: bool, n: bool, h: bool, c: bool)
    ensures
        flags_to_f(z, n, h, c) & 0x0F == 0,
        (flags_to_f(z, n, h, c) & 0x80 != 0) == z,
        (flags_to_f(z, n, h, c) & 0x40 != 0) == n,
        (flags_to_f(z, n, h, c) & 0x20 != 0) == h,
        (flags_to_f(z, n, h, c) & 0x10 != 0) == c,
{
    let f = flags_to_f(z, n, h, c);
    assert(f & 0x0F == 0 && (f & 0x80 != 0) == z && (f & 0x40 != 0) == n && (f & 0x20 != 0) == h
        && (f & 0x10 != 0) == c) by (bit_vector)
        requires
            f == ((if z { 128int } else { 0int }) + (if n { 64int } else { 0int }) + (if h {
                32int
            } else {
                0int
            }) + (if c { 16int } else { 0int })) as u8,
    ;
}

/// Packs flag bools into the F byte layout.
pub fn pack_flags(z: bool, n: bool, h: bool, c: bool) -> (f: u8)
    ensures
        f == flags_to_f(z, n, h, c),
        f & 0x0F == 0,
{
    proof {
        lemma_flags_f(z, n, h, c);
    }
    let mut f: u8 = 0;
    if z {
        f = f + 128;
    }
    if n {
        f = f + 64;
    }
    if h {
        f = f + 32;
    }
    if c {
        f = f + 16;
    }
    f
}

pub fn alu_add(a: u8, b: u8, cin: bool) -> (r: Alu8)
    ensures
        r == spec_add(a, b, cin),
        r.f & 0x0F == 0,
{
    let cv: u16 = if cin {
        1
    } else {
        0
    };
    let sum: u16 = a as u16 + b as u16 + cv;
    let val = (sum % 256) as u8;
    let h = a % 16 + b % 16 + (cv as u8) > 15;
    Alu8 { val, f: pack_flags(val == 0, false, h, sum > 255) }
}

pub fn alu_sub(a: u8, b: u8, cin: bool) -> (r: Alu8)
    ensures
        r == spec_sub(a, b, cin),
        r.f & 0x0F == 0,
{
    let cv: u16 = if cin {
        1
    } else {
        0
    };
    let val = ((256 + a as u16 - b as u16 - cv) % 256) as u8;
    let h = (a % 16) < b % 16 + (cv as u8);
    let c = (a as u16) < b as u16 + cv;
    Alu8 { val, f: pack_flags(val == 0, true, h, c) }
}

pub fn alu_and(a: u8, b: u8) -> (r: Alu8)
    ensures
        r == spec_and(a, b),
        r.f & 0x0F == 0,
{
    let val = a & b;
    Alu8 { val, f: pack_flags(val == 0, false, true, false) }
}

pub fn alu_xor(a: u8, b: u8) -> (r: Alu8)
    ensures
        r == spec_xor(a, b),
        r.f & 0x0F == 0,
{
    let val = a ^ b;
    Alu8 { val, f: pack_flags(val == 0, false, false, false) }
}

pub fn alu_or(a: u8, b: u8) -> (r: Alu8)
    ensures
        r == spec_or(a, b),
        r.f & 0x0F == 0,
{
    let val = a | b;
    Alu8 { val, f: pack_flags(val == 0, false, false, false) }
}

pub fn alu_inc(v: u8, oldf: u8) -> (r: Alu8)
    ensures
        r == spec_inc(v, oldf),
        r.f & 0x0F == 0,
{
    let val = ((v as u16 + 1) % 256) as u8;
    Alu8 { val, f: pack_flags(val == 0, false, v % 16 == 15, oldf & 0x10 != 0) }
}

pub fn alu_dec(v: u8, oldf: u8) -> (r: Alu8)
    ensures
        r == spec_dec(v, oldf),
        r.f & 0x0F == 0,
{
    let val = ((v as u16 + 255) % 256) as u8;
    Alu8 { val, f: pack_flags(val == 0, true, v % 16 == 0, oldf & 0x10 != 0) }
}

pub fn alu_daa(a: u8, oldf: u8) -> (r: Alu8)
    ensures
        r == spec_daa(a, oldf),
        r.f & 0x0F == 0,
{
    let n = oldf & 0x40 != 0;
    let h = oldf & 0x20 != 0;
    let c = oldf & 0x10 != 0;
    if !n {
        let carry_out = c || a > 0x99;
        let mut adj: u16 = 0;
        if h || a % 16 > 9 {
            adj = adj + 0x06;
        }
        if carry_out {
            adj = adj + 0x60;
        }
        let val = ((a as u16 + adj) % 256) as u8;
        Alu8 { val, f: pack_flags(val == 0, false, false, carry_out) }
    } else {
        let mut adj: u16 = 0;
        if h {
            adj = adj + 0x06;
        }
        if c {
            adj = adj + 0x60;
        }
        let val = ((256 + a as u16 - adj) % 256) as u8;
        Alu8 { val, f: pack_flags(val == 0, true, false, c) }
    }
}

pub fn exec_rlc(v: u8) -> (r: (u8, bool))
    ensures
        r == spec_rlc(v),
{
    ((v % 128) * 2 + v / 128, v >= 128)
}

pub fn exec_rl(v: u8, cin: bool) -> (r: (u8, bool))
    ensures
        r == spec_rl(v, cin),
{
    let low: u8 = if cin {
        1
    } else {
        0
    };
    ((v % 128) * 2 + low, v >= 128)
}

pub fn exec_rrc(v: u8) -> (r: (u8, bool))
    ensures
        r == spec_rrc(v),
{
    (v / 2 + (v % 2) * 128, v % 2 == 1)
}

pub fn exec_rr(v: u8, cin: bool) -> (r: (u8, bool))
    ensures
        r == spec_rr(v, cin),
{
    let high: u8 = if cin {
        128
    } else {
        0
    };
    (v / 2 + high, v % 2 == 1)
}

pub fn exec_sla(v: u8) -> (r: (u8, bool))
    ensures
        r == spec_sla(v),
{
    ((v % 128) * 2, v >= 128)
}

pub fn exec_sra(v: u8) -> (r: (u8, bool))
    ensures
        r == spec_sra(v),
{
    (v / 2 + (v / 128) * 128, v % 2 == 1)
}

pub fn exec_srl(v: u8) -> (r: (u8, bool))
    ensures
        r == spec_srl(v),
{
    (v / 2, v % 2 == 1)
}

pub fn exec_swap(v: u8) -> (r: u8)
    ensures
        r == spec_swap(v),
{
    (v % 16) * 16 + v / 16
}

pub fn exec_add16(a: u16, b: u16) -> (r: (u16, bool, bool))
    ensures
        r == spec_add16(a, b),
{
    let sum: u32 = a as u32 + b as u32;
    ((sum % 65536) as u16, a % 4096 + b % 4096 > 4095, sum > 65535)
}

pub fn exec_add_sp(sp: u16, d: u8) -> (r: (u16, bool, bool))
    ensures
        r == spec_add_sp(sp, d),
{
    let off: u32 = if d >= 128 {
        d as u32 + 65536 - 256
    } else {
        d as u32
    };
    let val = ((sp as u32 + off) % 65536) as u16;
    let h = sp % 16 + (d % 16) as u16 > 15;
    let c = sp % 256 + d as u16 > 255;
    (val, h, c)
}

pub fn exec_rel_target(pc: u16, d: u8) -> (r: u16)
    ensures
        r == spec_rel_target(pc, d),
{
    let off: u32 = if d >= 128 {
        d as u32 + 65536 - 256
    } else {
        d as u32
    };
    ((pc as u32 + off) % 65536) as u16
}

} // verus!
