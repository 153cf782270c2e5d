//! The register file: eight 8-bit cells, combinable into the four 16-bit
//! pairs, plus the flag-bit accessors on F.
use vstd::prelude::*;

use crate::Platform;
use crate::alu::exec_rl;
use crate::alu::exec_rlc;
use crate::alu::exec_rr;
use crate::alu::exec_rrc;
use crate::alu::flags_to_f;
use crate::alu::pack_flags;
use crate::alu::spec_rl;
use crate::alu::spec_rlc;
use crate::alu::spec_rr;
use crate::alu::spec_rrc;

verus! {

// Power-on register-pair values, fixed per platform.
pub const DMG_AF: u16 = 0x01B0;
pub const DMG_BC: u16 = 0x0013;
pub const DMG_DE: u16 = 0x00D8;
pub const DMG_HL: u16 = 0x014D;
pub const GBC_AF: u16 = 0x1180;
pub const GBC_BC: u16 = 0x0000;
pub const GBC_DE: u16 = 0xFF56;
pub const GBC_HL: u16 = 0x000D;

/// One of the eight 8-bit register cells.
#[derive(Clone, Copy)]
pub enum Register8 {
    A,
    B,
    C,
    D,
    E,
    F,
    H,
    L,
}

/// One of the four 16-bit register pairs. A pair is a view over two 8-bit
/// cells: the first named register supplies bits 15-8, the second bits 7-0.
#[derive(Clone, Copy)]
pub enum Register16 {
    AF,
    BC,
    DE,
    HL,
}

/// The four meaningful flag bits of register F: bit 7 (Z, zero),
/// bit 6 (N, subtraction), bit 5 (H, half-carry), bit 4 (C, carry).
#[derive(Clone, Copy)]
pub enum Flags {
    Z,
    N,
    H,
    C,
}

/// Bit mask of a flag within register F.
pub open spec fn flag_mask(fl: Flags) -> u8 {
    match fl {
        Flags::Z => 0x80,
        Flags::N => 0x40,
        Flags::H => 0x20,
        Flags::C => 0x10,
    }
}

/// The register file: eight independent 8-bit cells. The low nibble of F is
/// architecturally wired to zero; every write path maintains that.
pub struct Registers {
    pub a: u8,
    pub b: u8,
    pub c: u8,
    pub d: u8,
    pub e: u8,
    pub f: u8,
    pub h: u8,
    pub l: u8,
}

impl Registers {
    /// Invariant: only the four flag bits of F can be set.
    pub open spec fn wf(self) -> bool {
        self.f & 0x0F == 0
    }

    pub open spec fn spec_get8(self, r: Register8) -> u8 {
        match r {
            Register8::A => self.a,
            Register8::B => self.b,
            Register8::C => self.c,
            Register8::D => self.d,
            Register8::E => self.e,
            Register8::F => self.f,
            Register8::H => self.h,
            Register8::L => self.l,
        }
    }

    /// Writing F keeps its low nibble clear.
    pub open spec fn spec_set8(self, r: Register8, val: u8) -> Registers {
        match r {
            Register8::A => Registers { a: val, ..self },
            Register8::B => Registers { b: val, ..self },
            Register8::C => Registers { c: val, ..self },
            Register8::D => Registers { d: val, ..self },
            Register8::E => Registers { e: val, ..self },
            Register8::F => Registers { f: val & 0xF0, ..self },
            Register8::H => Registers { h: val, ..self },
            Register8::L => Registers { l: val, ..self },
        }
    }

    pub open spec fn spec_get16(self, rr: Register16) -> u16 {
        match rr {
            Register16::AF => (self.a as int * 256 + self.f as int) as u16,
            Register16::BC => (self.b as int * 256 + self.c as int) as u16,
            Register16::DE => (self.d as int * 256 + self.e as int) as u16,
            Register16::HL => (self.h as int * 256 + self.l as int) as u16,
        }
    }

    pub open spec fn spec_set16(self, rr: Register16, val: u16) -> Registers {
        let hi = (val as int / 256) as u8;
        let lo = (val as int % 256) as u8;
        match rr {
            Register16::AF => Registers { a: hi, f: lo & 0xF0, ..self },
            Register16::BC => Registers { b: hi, c: lo, ..self },
            Register16::DE => Registers { d: hi, e: lo, ..self },
            Register16::HL => Registers { h: hi, l: lo, ..self },
        }
    }

    pub open spec fn spec_get_flag(self, fl: Flags) -> bool {
        self.f & flag_mask(fl) != 0
    }

    pub open spec fn spec_set_flag(self, fl: Flags) -> Registers {
        Registers { f: self.f | flag_mask(fl), ..self }
    }

    pub open spec fn spec_unset_flag(self, fl: Flags) -> Registers {
        Registers { f: self.f & !flag_mask(fl), ..self }
    }

    /// Power-on contents for the selected platform.
    pub open spec fn spec_new(platform: Platform) -> Registers {
        let regs = Registers { a: 0, b: 0, c: 0, d: 0, e: 0, f: 0, h: 0, l: 0 };
        match platform {
            Platform::DMG => regs
                .spec_set16(Register16::AF, DMG_AF)
                .spec_set16(Register16::BC, DMG_BC)
                .spec_set16(Register16::DE, DMG_DE)
                .spec_set16(Register16::HL, DMG_HL),
            Platform::GBC => regs
                .spec_set16(Register16::AF, GBC_AF)
                .spec_set16(Register16::BC, GBC_BC)
                .spec_set16(Register16::DE, GBC_DE)
                .spec_set16(Register16::HL, GBC_HL),
        }
    }

    pub fn new(platform: &Platform) -> (regs: Registers)
        ensures
            regs == Registers::spec_new(*platform),
            regs.wf(),
    {
        let mut regs = Registers { a: 0, b: 0, c: 0, d: 0, e: 0, f: 0, h: 0, l: 0 };
        match platform {
            Platform::DMG => {
                regs.set16(Register16::AF, DMG_AF);
                regs.set16(Register16::BC, DMG_BC);
                regs.set16(Register16::DE, DMG_DE);
                regs.set16(Register16::HL, DMG_HL);
            },
            Platform::GBC => {
                regs.set16(Register16::AF, GBC_AF);
                regs.set16(Register16::BC, GBC_BC);
                regs.set16(Register16::DE, GBC_DE);
                regs.set16(Register16::HL, GBC_HL);
            },
        }
        proof {
            let fv = regs.f;
            assert(fv & 0x0F == 0) by (bit_vector)
                requires
                    fv == (0xB0u8 & 0xF0) || fv == (0x80u8 & 0xF0),
            ;
        }
        regs
    }

    pub fn get8(&self, r: Register8) -> (val: u8)
        ensures
            val == self.spec_get8(r),
    {
        match r {
            Register8::A => self.a,
            Register8::B => self.b,
            Register8::C => self.c,
            Register8::D => self.d,
            Register8::E => self.e,
            Register8::F => self.f,
            Register8::H => self.h,
            Register8::L => self.l,
        }
    }

    pub fn set8(&mut self, r: Register8, val: u8)
        ensures
            *final(self) == old(self).spec_set8(r, val),
            old(self).wf() ==> final(self).wf(),
    {
        match r {
            Register8::A => self.a = val,
            Register8::B => self.b = val,
            Register8::C => self.c = val,
            Register8::D => self.d = val,
            Register8::E => self.e = val,
            Register8::F => self.f = val & 0xF0,
            Register8::H => self.h = val,
            Register8::L => self.l = val,
        }
        proof {
            assert((val & 0xF0) & 0x0F == 0) by (bit_vector);
        }
    }

    pub fn get16(&self, rr: Register16) -> (val: u16)
        ensures
            val == self.spec_get16(rr),
    {
        match rr {
            Register16::AF => (self.a as u16) * 256 + (self.f as u16),
            Register16::BC => (self.b as u16) * 256 + (self.c as u16),
            Register16::DE => (self.d as u16) * 256 + (self.e as u16),
            Register16::HL => (self.h as u16) * 256 + (self.l as u16),
        }
    }

    pub fn set16(&mut self, rr: Register16, val: u16)
        ensures
            *final(self) == old(self).spec_set16(rr, val),
            old(self).wf() ==> final(self).wf(),
    {
        let hi = (val / 256) as u8;
        let lo = (val % 256) as u8;
        match rr {
            Register16::AF => {
                self.a = hi;
                self.f = lo & 0xF0;
            },
            Register16::BC => {
                self.b = hi;
                self.c = lo;
            },
            Register16::DE => {
                self.d = hi;
                self.e = lo;
            },
            Register16::HL => {
                self.h = hi;
                self.l = lo;
            },
        }
        proof {
            assert((lo & 0xF0) & 0x0F == 0) by (bit_vector);
        }
    }


    /// State after one of the accumulator-style rotates applied to `r`:
    /// the rotated value lands in the register, C takes the bit rotated
    /// out, and Z, N and H are cleared.
    pub open spec fn spec_rotate(self, r: Register8, val: u8, carry: bool) -> Registers {
        let regs1 = self.spec_set8(r, val);
        Registers { f: flags_to_f(false, false, false, carry), ..regs1 }
    }

    /// Rotate left circular: bit 7 into bit 0 and into C; Z, N, H cleared.
    pub fn rotate_left_circular8(&mut self, r: Register8)
        ensures
            *final(self) == old(self).spec_rotate(
                r,
                spec_rlc(old(self).spec_get8(r)).0,
                spec_rlc(old(self).spec_get8(r)).1,
            ),
            final(self).wf(),
    {
        let v = self.get8(r);
        let t = exec_rlc(v);
        self.set8(r, t.0);
        self.f = pack_flags(false, false, false, t.1);
    }

    /// Rotate left through carry: C into bit 0, bit 7 into C; Z, N, H cleared.
    pub fn rotate_left8(&mut self, r: Register8)
        ensures
            *final(self) == old(self).spec_rotate(
                r,
                spec_rl(old(self).spec_get8(r), old(self).spec_get_flag(Flags::C)).0,
                spec_rl(old(self).spec_get8(r), old(self).spec_get_flag(Flags::C)).1,
            ),
            final(self).wf(),
    {
        let cin = self.get_flag(Flags::C);
        let v = self.get8(r);
        let t = exec_rl(v, cin);
        self.set8(r, t.0);
        self.f = pack_flags(false, false, false, t.1);
    }

    /// Rotate right circular: bit 0 into bit 7 and into C; Z, N, H cleared.
    pub fn rotate_right_circular8(&mut self, r: Register8)
        ensures
            *final(self) == old(self).spec_rotate(
                r,
                spec_rrc(old(self).spec_get8(r)).0,
                spec_rrc(old(self).spec_get8(r)).1,
            ),
            final(self).wf(),
    {
        let v = self.get8(r);
        let t = exec_rrc(v);
        self.set8(r, t.0);
        self.f = pack_flags(false, false, false, t.1);
    }

    /// Rotate right through carry: C into bit 7, bit 0 into C; Z, N, H cleared.
    pub fn rotate_right8(&mut self, r: Register8)
        ensures
            *final(self) == old(self).spec_rotate(
                r,
                spec_rr(old(self).spec_get8(r), old(self).spec_get_flag(Flags::C)).0,
                spec_rr(old(self).spec_get8(r), old(self).spec_get_flag(Flags::C)).1,
            ),
            final(self).wf(),
    {
        let cin = self.get_flag(Flags::C);
        let v = self.get8(r);
        let t = exec_rr(v, cin);
        self.set8(r, t.0);
        self.f = pack_flags(false, false, false, t.1);
    }

    pub fn get_flag(&self, fl: Flags) -> (set: bool)
        ensures
            set == self.spec_get_flag(fl),
    {
        match fl {
            Flags::Z => self.f & 0x80 != 0,
            Flags::N => self.f & 0x40 != 0,
            Flags::H => self.f & 0x20 != 0,
            Flags::C => self.f & 0x10 != 0,
        }
    }

    pub fn set_flag(&mut self, fl: Flags)
        ensures
            *final(self) == old(self).spec_set_flag(fl),
            old(self).wf() ==> final(self).wf(),
    {
        match fl {
            Flags::Z => self.f = self.f | 0x80,
            Flags::N => self.f = self.f | 0x40,
            Flags::H => self.f = self.f | 0x20,
            Flags::C => self.f = self.f | 0x10,
        }
        proof {
            let f0 = old(self).f;
            let f1 = self.f;
            assert(f0 & 0x0F == 0 ==> f1 & 0x0F == 0) by (bit_vector)
                requires
                    f1 == f0 | 0x80 || f1 == f0 | 0x40 || f1 == f0 | 0x20 || f1 == f0 | 0x10,
            ;
        }
    }

    pub fn unset_flag(&mut self, fl: Flags)
        ensures
            *final(self) == old(self).spec_unset_flag(fl),
            old(self).wf() ==> final(self).wf(),
    {
        match fl {
            Flags::Z => self.f = self.f & !0x80,
            Flags::N => self.f = self.f & !0x40,
            Flags::H => self.f = self.f & !0x20,
            Flags::C => self.f = self.f & !0x10,
        }
        proof {
            let f0 = old(self).f;
            let f1 = self.f;
            assert(f0 & 0x0F == 0 ==> f1 & 0x0F == 0) by (bit_vector)
                requires
                    f1 == f0 & !0x80 || f1 == f0 & !0x40 || f1 == f0 & !0x20 || f1 == f0
                        & !0x10,
            ;
        }
    }
}

} // verus!
