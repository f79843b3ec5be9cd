use vstd::prelude::*;

use crate::operand::{Reg16, Reg8};

verus! {

/// Zero flag (bit 7 of F).
pub const FLAG_Z: u8 = 0x80;

/// Subtract flag (bit 6 of F).
pub const FLAG_N: u8 = 0x40;

/// Half-carry flag (bit 5 of F).
pub const FLAG_H: u8 = 0x20;

/// Carry flag (bit 4 of F).
pub const FLAG_C: u8 = 0x10;

/// The 16-bit value whose high byte is `hi` and low byte is `lo`.
pub open spec fn pair(hi: u8, lo: u8) -> u16 {
    (hi as int * 256 + lo as int) as u16
}

pub open spec fn hi_byte(v: u16) -> u8 {
    (v / 256) as u8
}

pub open spec fn lo_byte(v: u16) -> u8 {
    (v % 256) as u8
}

/// Whether the flag selected by `mask` is set in `f`.
pub open spec fn flag(f: u8, mask: u8) -> bool {
    f & mask != 0
}

/// `f` with the flag selected by `mask` set to `on`, every other bit kept.
pub open spec fn with_flag(f: u8, mask: u8, on: bool) -> u8 {
    if on {
        f | mask
    } else {
        f & !mask
    }
}

pub proof fn lemma_pair_bytes(v: u16)
    ensures
        pair(hi_byte(v), lo_byte(v)) == v,
{
}

/// An integer reduced to 16 bits, as the 16-bit counters wrap.
pub open spec fn wrap16(x: int) -> u16 {
    (x % 65536) as u16
}

/// An integer reduced to 8 bits.
pub open spec fn wrap8(x: int) -> u8 {
    (x % 256) as u8
}

/// The value of 8-bit register `which`.
pub open spec fn reg8_spec(r: Registers, which: Reg8) -> u8 {
    match which {
        Reg8::A => r.a,
        Reg8::B => r.b,
        Reg8::C => r.c,
        Reg8::D => r.d,
        Reg8::E => r.e,
        Reg8::F => r.f,
        Reg8::H => r.h,
        Reg8::L => r.l,
    }
}

/// The registers after `v` is written to `which`; F keeps its low nibble
/// clear.
pub open spec fn set_reg8_spec(r: Registers, which: Reg8, v: u8) -> Registers {
    match which {
        Reg8::A => Registers { a: v, ..r },
        Reg8::B => Registers { b: v, ..r },
        Reg8::C => Registers { c: v, ..r },
        Reg8::D => Registers { d: v, ..r },
        Reg8::E => Registers { e: v, ..r },
        Reg8::F => Registers { f: v & 0xF0, ..r },
        Reg8::H => Registers { h: v, ..r },
        Reg8::L => Registers { l: v, ..r },
    }
}

/// The value of 16-bit register `which`; pairs are big-endian.
pub open spec fn reg16_spec(r: Registers, which: Reg16) -> u16 {
    match which {
        Reg16::AF => pair(r.a, r.f),
        Reg16::BC => pair(r.b, r.c),
        Reg16::DE => pair(r.d, r.e),
        Reg16::HL => pair(r.h, r.l),
        Reg16::SP => r.sp,
    }
}

/// The registers after `v` is written to `which`.
pub open spec fn set_reg16_spec(r: Registers, which: Reg16, v: u16) -> Registers {
    match which {
        Reg16::AF => Registers { a: hi_byte(v), f: lo_byte(v) & 0xF0, ..r },
        Reg16::BC => Registers { b: hi_byte(v), c: lo_byte(v), ..r },
        Reg16::DE => Registers { d: hi_byte(v), e: lo_byte(v), ..r },
        Reg16::HL => Registers { h: hi_byte(v), l: lo_byte(v), ..r },
        Reg16::SP => Registers { sp: v, ..r },
    }
}

/// The eight 8-bit registers and the two 16-bit ones.
#[derive(Clone, Copy, Debug)]
pub struct Registers {
    pub sp: u16,
    pub pc: u16,
    pub a: u8,
    pub b: u8,
    pub c: u8,
    pub d: u8,
    pub e: u8,
    pub f: u8,
    pub h: u8,
    pub l: u8,
}

impl Registers {
    /// Every register cleared, as at power-on.
    pub fn new() -> (r: Registers)
        ensures
            r == (Registers { sp: 0, pc: 0, a: 0, b: 0, c: 0, d: 0, e: 0, f: 0, h: 0, l: 0 }),
    {
        Registers { sp: 0, pc: 0, a: 0, b: 0, c: 0, d: 0, e: 0, f: 0, h: 0, l: 0 }
    }

    pub fn af(&self) -> (r: u16)
        ensures
            r == pair(self.a, self.f),
    {
        (self.a as u16) * 256 + (self.f as u16)
    }

    pub fn bc(&self) -> (r: u16)
        ensures
            r == pair(self.b, self.c),
    {
        (self.b as u16) * 256 + (self.c as u16)
    }

    pub fn de(&self) -> (r: u16)
        ensures
            r == pair(self.d, self.e),
    {
        (self.d as u16) * 256 + (self.e as u16)
    }

    pub fn hl(&self) -> (r: u16)
        ensures
            r == pair(self.h, self.l),
    {
        (self.h as u16) * 256 + (self.l as u16)
    }

    /// Writes AF; the low nibble of F is always forced to zero.
    pub fn write_af(&mut self, val: u16)
        ensures
            *final(self) == (Registers { a: hi_byte(val), f: lo_byte(val) & 0xF0, ..*old(self) }),
    {
        self.a = (val / 256) as u8;
        self.f = ((val % 256) as u8) & 0xF0;
    }

    pub fn write_bc(&mut self, val: u16)
        ensures
            *final(self) == (Registers { b: hi_byte(val), c: lo_byte(val), ..*old(self) }),
    {
        self.b = (val / 256) as u8;
        self.c = (val % 256) as u8;
    }

    pub fn write_de(&mut self, val: u16)
        ensures
            *final(self) == (Registers { d: hi_byte(val), e: lo_byte(val), ..*old(self) }),
    {
        self.d = (val / 256) as u8;
        self.e = (val % 256) as u8;
    }

    pub fn write_hl(&mut self, val: u16)
        ensures
            *final(self) == (Registers { h: hi_byte(val), l: lo_byte(val), ..*old(self) }),
    {
        self.h = (val / 256) as u8;
        self.l = (val % 256) as u8;
    }

    pub fn read8(&self, which: Reg8) -> (r: u8)
        ensures
            r == reg8_spec(*self, which),
    {
        match which {
            Reg8::A => self.a,
            Reg8::B => self.b,
            Reg8::C => self.c,
            Reg8::D => self.d,
            Reg8::E => self.e,
            Reg8::F => self.f,
            Reg8::H => self.h,
            Reg8::L => self.l,
        }
    }

    pub fn write8(&mut self, which: Reg8, v: u8)
        ensures
            *final(self) == set_reg8_spec(*old(self), which, v),
    {
        match which {
            Reg8::A => self.a = v,
            Reg8::B => self.b = v,
            Reg8::C => self.c = v,
            Reg8::D => self.d = v,
            Reg8::E => self.e = v,
            Reg8::F => self.f = v & 0xF0,
            Reg8::H => self.h = v,
            Reg8::L => self.l = v,
        }
    }

    pub fn read16(&self, which: Reg16) -> (r: u16)
        ensures
            r == reg16_spec(*self, which),
    {
        match which {
            Reg16::AF => self.af(),
            Reg16::BC => self.bc(),
            Reg16::DE => self.de(),
            Reg16::HL => self.hl(),
            Reg16::SP => self.sp,
        }
    }

    pub fn write16(&mut self, which: Reg16, v: u16)
        ensures
            *final(self) == set_reg16_spec(*old(self), which, v),
    {
        match which {
            Reg16::AF => self.write_af(v),
            Reg16::BC => self.write_bc(v),
            Reg16::DE => self.write_de(v),
            Reg16::HL => self.write_hl(v),
            Reg16::SP => self.sp = v,
        }
    }

    pub fn zf(&self) -> (r: bool)
        ensures
            r == flag(self.f, FLAG_Z),
    {
        self.f & FLAG_Z != 0
    }

    pub fn nf(&self) -> (r: bool)
        ensures
            r == flag(self.f, FLAG_N),
    {
        self.f & FLAG_N != 0
    }

    pub fn hf(&self) -> (r: bool)
        ensures
            r == flag(self.f, FLAG_H),
    {
        self.f & FLAG_H != 0
    }

    pub fn cf(&self) -> (r: bool)
        ensures
            r == flag(self.f, FLAG_C),
    {
        self.f & FLAG_C != 0
    }

    pub fn set_zf(&mut self, flag: bool)
        ensures
            *final(self) == (Registers { f: with_flag(old(self).f, FLAG_Z, flag), ..*old(self) }),
    {
        self.f = if flag { self.f | FLAG_Z } else { self.f & !FLAG_Z };
    }

    pub fn set_nf(&mut self, flag: bool)
        ensures
            *final(self) == (Registers { f: with_flag(old(self).f, FLAG_N, flag), ..*old(self) }),
    {
        self.f = if flag { self.f | FLAG_N } else { self.f & !FLAG_N };
    }

    pub fn set_hf(&mut self, flag: bool)
        ensures
            *final(self) == (Registers { f: with_flag(old(self).f, FLAG_H, flag), ..*old(self) }),
    {
        self.f = if flag { self.f | FLAG_H } else { self.f & !FLAG_H };
    }

    pub fn set_cf(&mut self, flag: bool)
        ensures
            *final(self) == (Registers { f: with_flag(old(self).f, FLAG_C, flag), ..*old(self) }),
    {
        self.f = if flag { self.f | FLAG_C } else { self.f & !FLAG_C };
    }
}

} // verus!
