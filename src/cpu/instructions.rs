use vstd::prelude::*;

use crate::cpu::{
    fetch_spec, pop16_spec, push16_spec, read16_spec, read8_spec, with_pc, with_regs, write16_spec,
    write8_spec, Cpu,
};
use crate::interrupts::Interrupts;
use crate::operand::{readable16, writable16, writable8, Cond, Imm8, Operand16, Operand8, Reg16};
use crate::peripherals::{BusView, Peripherals};
use crate::registers::{
    flag, reg16_spec, set_reg16_spec, with_flag, wrap16, wrap8, Registers, FLAG_C, FLAG_H, FLAG_N,
    FLAG_Z,
};

verus! {

/// The instruction step set to `step`.
pub open spec fn with_step(c: Cpu, step: u8) -> Cpu {
    Cpu { ctx: crate::cpu::Ctx { step, ..c.ctx }, ..c }
}

pub open spec fn with_val8(c: Cpu, step: u8, v: u8) -> Cpu {
    Cpu { ctx: crate::cpu::Ctx { step, val8: v, ..c.ctx }, ..c }
}

pub open spec fn with_val16(c: Cpu, step: u8, v: u16) -> Cpu {
    Cpu { ctx: crate::cpu::Ctx { step, val16: v, ..c.ctx }, ..c }
}

pub open spec fn with_f(c: Cpu, f: u8) -> Cpu {
    Cpu { regs: Registers { f, ..c.regs }, ..c }
}

pub open spec fn with_ime(b: BusView, ime: bool) -> BusView {
    BusView { ints: Interrupts { ime, ..b.ints }, ..b }
}

/// `v` read as a two's-complement byte.
pub open spec fn signed8(v: u8) -> int {
    if v < 0x80 {
        v as int
    } else {
        v - 0x100
    }
}

/// F after an 8-bit increment of `v`: Zero per result, Subtract clear,
/// Half-carry when the low nibble was 0xF; Carry untouched.
pub open spec fn inc_flags(f: u8, v: u8) -> u8 {
    with_flag(with_flag(with_flag(f, FLAG_Z, wrap8(v + 1) == 0), FLAG_N, false), FLAG_H, v & 0x0F == 0x0F)
}

/// F after an 8-bit decrement of `v`: Zero per result, Subtract set,
/// Half-carry when the low nibble was 0x0; Carry untouched.
pub open spec fn dec_flags(f: u8, v: u8) -> u8 {
    with_flag(with_flag(with_flag(f, FLAG_Z, wrap8(v - 1) == 0), FLAG_N, true), FLAG_H, v & 0x0F == 0)
}

/// F after comparing `a` with `v` (the flags of `a - v`).
pub open spec fn cp_flags(f: u8, a: u8, v: u8) -> u8 {
    with_flag(
        with_flag(with_flag(with_flag(f, FLAG_Z, a == v), FLAG_N, true), FLAG_H, a & 0x0F < v & 0x0F),
        FLAG_C,
        a < v,
    )
}

/// `v` rotated left through the carry `carry`.
pub open spec fn rl_value(v: u8, carry: bool) -> u8 {
    wrap8(v * 2 + if carry {
        1int
    } else {
        0int
    })
}

/// F after rotating `v` left through the carry.
pub open spec fn rl_flags(f: u8, v: u8) -> u8 {
    with_flag(
        with_flag(with_flag(with_flag(f, FLAG_Z, rl_value(v, flag(f, FLAG_C)) == 0), FLAG_N, false), FLAG_H, false),
        FLAG_C,
        v >= 0x80,
    )
}

/// F after testing bit `n` of `v`.
pub open spec fn bit_flags(f: u8, n: u8, v: u8) -> u8 {
    with_flag(with_flag(with_flag(f, FLAG_Z, v & (1u8 << n) == 0), FLAG_N, false), FLAG_H, true)
}

pub open spec fn cond_holds(r: Registers, c: Cond) -> bool {
    match c {
        Cond::NZ => !flag(r.f, FLAG_Z),
        Cond::Z => flag(r.f, FLAG_Z),
        Cond::NC => !flag(r.f, FLAG_C),
        Cond::C => flag(r.f, FLAG_C),
    }
}

pub open spec fn nop_spec(c: Cpu, b: BusView) -> (Cpu, BusView) {
    (fetch_spec(c, b), b)
}

/// One cycle of `LD dst, src`: read, then write, then fetch.
pub open spec fn ld_spec(c: Cpu, b: BusView, dst: Operand8, src: Operand8) -> (Cpu, BusView) {
    let c1 = if c.ctx.step == 0 {
        let (n, r) = read8_spec(c, b, src);
        match r {
            Some(v) => with_val8(n, 1, v),
            None => n,
        }
    } else {
        c
    };
    let (c2, b2) = if c1.ctx.step == 1 {
        let (n, nb, done) = write8_spec(c1, b, dst, c1.ctx.val8);
        (if done {
            with_step(n, 2)
        } else {
            n
        }, nb)
    } else {
        (c1, b)
    };
    if c2.ctx.step == 2 {
        (fetch_spec(c2, b2), b2)
    } else {
        (c2, b2)
    }
}

/// One cycle of the 16-bit `LD dst, src`.
pub open spec fn ld16_spec(c: Cpu, b: BusView, dst: Operand16, src: Operand16) -> (Cpu, BusView) {
    let c1 = if c.ctx.step == 0 {
        let (n, r) = read16_spec(c, b, src);
        match r {
            Some(v) => with_val16(n, 1, v),
            None => n,
        }
    } else {
        c
    };
    let (c2, b2) = if c1.ctx.step == 1 {
        let (n, nb, done) = write16_spec(c1, b, dst, c1.ctx.val16);
        (if done {
            with_step(n, 2)
        } else {
            n
        }, nb)
    } else {
        (c1, b)
    };
    if c2.ctx.step == 2 {
        (fetch_spec(c2, b2), b2)
    } else {
        (c2, b2)
    }
}

/// One cycle of `CP src`: once the operand is read, only F changes, and
/// the next instruction is fetched.
pub open spec fn cp_spec(c: Cpu, b: BusView, src: Operand8) -> (Cpu, BusView) {
    let (n, r) = read8_spec(c, b, src);
    match r {
        Some(v) => (fetch_spec(with_f(n, cp_flags(n.regs.f, n.regs.a, v)), b), b),
        None => (n, b),
    }
}

/// One cycle of `INC src` (8-bit).
pub open spec fn inc_spec(c: Cpu, b: BusView, src: Operand8) -> (Cpu, BusView) {
    let c1 = if c.ctx.step == 0 {
        let (n, r) = read8_spec(c, b, src);
        match r {
            Some(v) => with_val8(with_f(n, inc_flags(n.regs.f, v)), 1, wrap8(v + 1)),
            None => n,
        }
    } else {
        c
    };
    if c1.ctx.step == 1 {
        let (n, nb, done) = write8_spec(c1, b, src, c1.ctx.val8);
        if done {
            (fetch_spec(n, nb), nb)
        } else {
            (n, nb)
        }
    } else {
        (c1, b)
    }
}

/// One cycle of `DEC src` (8-bit).
pub open spec fn dec_spec(c: Cpu, b: BusView, src: Operand8) -> (Cpu, BusView) {
    let c1 = if c.ctx.step == 0 {
        let (n, r) = read8_spec(c, b, src);
        match r {
            Some(v) => with_val8(with_f(n, dec_flags(n.regs.f, v)), 1, wrap8(v - 1)),
            None => n,
        }
    } else {
        c
    };
    if c1.ctx.step == 1 {
        let (n, nb, done) = write8_spec(c1, b, src, c1.ctx.val8);
        if done {
            (fetch_spec(n, nb), nb)
        } else {
            (n, nb)
        }
    } else {
        (c1, b)
    }
}

/// One cycle of `INC r16` (no flags): the register moves, then a cycle
/// later the next instruction is fetched.
pub open spec fn inc16_spec(c: Cpu, b: BusView, r: Reg16) -> (Cpu, BusView) {
    if c.ctx.step == 0 {
        (with_step(with_regs(c, set_reg16_spec(c.regs, r, wrap16(reg16_spec(c.regs, r) + 1))), 1), b)
    } else {
        (fetch_spec(c, b), b)
    }
}

/// One cycle of `DEC r16` (no flags).
pub open spec fn dec16_spec(c: Cpu, b: BusView, r: Reg16) -> (Cpu, BusView) {
    if c.ctx.step == 0 {
        (with_step(with_regs(c, set_reg16_spec(c.regs, r, wrap16(reg16_spec(c.regs, r) - 1))), 1), b)
    } else {
        (fetch_spec(c, b), b)
    }
}

/// One cycle of `RL src`.
pub open spec fn rl_spec(c: Cpu, b: BusView, src: Operand8) -> (Cpu, BusView) {
    let c1 = if c.ctx.step == 0 {
        let (n, r) = read8_spec(c, b, src);
        match r {
            Some(v) => with_val8(
                with_f(n, rl_flags(n.regs.f, v)),
                1,
                rl_value(v, flag(n.regs.f, FLAG_C)),
            ),
            None => n,
        }
    } else {
        c
    };
    if c1.ctx.step == 1 {
        let (n, nb, done) = write8_spec(c1, b, src, c1.ctx.val8);
        if done {
            (fetch_spec(n, nb), nb)
        } else {
            (n, nb)
        }
    } else {
        (c1, b)
    }
}

/// One cycle of `BIT n, src`.
pub open spec fn bit_spec(c: Cpu, b: BusView, n: u8, src: Operand8) -> (Cpu, BusView) {
    let (c1, r) = read8_spec(c, b, src);
    match r {
        Some(v) => (fetch_spec(with_f(c1, bit_flags(c1.regs.f, n, v)), b), b),
        None => (c1, b),
    }
}

/// PC moved by the signed offset `v`.
pub open spec fn jumped(c: Cpu, v: u8) -> Cpu {
    with_pc(c, wrap16(c.regs.pc + signed8(v)))
}

/// One cycle of `JR e`: read the offset, jump, then fetch.
pub open spec fn jr_spec(c: Cpu, b: BusView) -> (Cpu, BusView) {
    if c.ctx.step == 0 {
        let (n, r) = read8_spec(c, b, Operand8::Imm(Imm8));
        match r {
            Some(v) => (with_step(jumped(n, v), 1), b),
            None => (n, b),
        }
    } else {
        (fetch_spec(c, b), b)
    }
}

/// One cycle of `JR cc, e`: when the condition fails the next instruction
/// is fetched in the cycle that reads the offset; when it holds, PC jumps
/// and the fetch comes one cycle later.
pub open spec fn jr_c_spec(c: Cpu, b: BusView, cond: Cond) -> (Cpu, BusView) {
    if c.ctx.step == 0 {
        let (n, r) = read8_spec(c, b, Operand8::Imm(Imm8));
        match r {
            Some(v) => if cond_holds(n.regs, cond) {
                (with_step(jumped(n, v), 1), b)
            } else {
                (fetch_spec(n, b), b)
            },
            None => (n, b),
        }
    } else {
        (fetch_spec(c, b), b)
    }
}

/// One cycle of `PUSH r`.
pub open spec fn push_spec(c: Cpu, b: BusView, r: Reg16) -> (Cpu, BusView) {
    let c1 = if c.ctx.step == 0 {
        with_val16(c, 1, reg16_spec(c.regs, r))
    } else {
        c
    };
    let (c2, b2) = if c1.ctx.step == 1 {
        let (n, nb, done) = push16_spec(c1, b, c1.ctx.val16);
        (if done {
            with_step(n, 2)
        } else {
            n
        }, nb)
    } else {
        (c1, b)
    };
    if c2.ctx.step == 2 {
        (fetch_spec(c2, b2), b2)
    } else {
        (c2, b2)
    }
}

/// One cycle of `POP r`.
pub open spec fn pop_spec(c: Cpu, b: BusView, r: Reg16) -> (Cpu, BusView) {
    let (n, v) = pop16_spec(c, b);
    match v {
        Some(v) => (fetch_spec(with_regs(n, set_reg16_spec(n.regs, r, v)), b), b),
        None => (n, b),
    }
}

/// One cycle of `CALL nn`: read the target, push PC, jump and fetch.
pub open spec fn call_spec(c: Cpu, b: BusView) -> (Cpu, BusView) {
    let c1 = if c.ctx.step == 0 {
        let (n, r) = read16_spec(c, b, Operand16::Imm(crate::operand::Imm16));
        match r {
            Some(v) => with_val16(n, 1, v),
            None => n,
        }
    } else {
        c
    };
    if c1.ctx.step == 1 {
        let (n, nb, done) = push16_spec(c1, b, c1.regs.pc);
        if done {
            (fetch_spec(with_pc(n, n.ctx.val16), nb), nb)
        } else {
            (n, nb)
        }
    } else {
        (c1, b)
    }
}

/// One cycle of `RET`, or of `RETI` when `enable` is set, which also turns
/// the interrupt master enable on.
pub open spec fn ret_spec(c: Cpu, b: BusView, enable: bool) -> (Cpu, BusView) {
    if c.ctx.step == 0 {
        let (n, v) = pop16_spec(c, b);
        match v {
            Some(v) => (with_step(with_pc(n, v), 1), b),
            None => (n, b),
        }
    } else {
        let nb = if enable {
            with_ime(b, true)
        } else {
            b
        };
        (fetch_spec(c, nb), nb)
    }
}

/// `EI` or `DI`: set the interrupt master enable and fetch.
pub open spec fn set_ime_spec(c: Cpu, b: BusView, ime: bool) -> (Cpu, BusView) {
    (fetch_spec(c, with_ime(b, ime)), with_ime(b, ime))
}

fn rotate_left(v: u8, carry: bool) -> (r: u8)
    ensures
        r == rl_value(v, carry),
{
    let c: u8 = if carry {
        1
    } else {
        0
    };
    (v % 0x80) * 2 + c
}

fn inc8(v: u8) -> (r: u8)
    ensures
        r == wrap8(v + 1),
{
    if v == 0xFF {
        0
    } else {
        v + 1
    }
}

fn dec8(v: u8) -> (r: u8)
    ensures
        r == wrap8(v - 1),
{
    if v == 0 {
        0xFF
    } else {
        v - 1
    }
}

fn apply_inc_flags(regs: &mut Registers, v: u8)
    ensures
        *final(regs) == (Registers { f: inc_flags(old(regs).f, v), ..*old(regs) }),
{
    regs.set_zf(inc8(v) == 0);
    regs.set_nf(false);
    regs.set_hf(v & 0x0F == 0x0F);
}

fn apply_dec_flags(regs: &mut Registers, v: u8)
    ensures
        *final(regs) == (Registers { f: dec_flags(old(regs).f, v), ..*old(regs) }),
{
    regs.set_zf(dec8(v) == 0);
    regs.set_nf(true);
    regs.set_hf(v & 0x0F == 0);
}

impl Cpu {
    pub fn nop(&mut self, bus: &Peripherals)
        requires
            bus@.wf(),
        ensures
            (*final(self), bus@) == nop_spec(*old(self), bus@),
    {
        self.fetch(bus);
    }

    pub fn ld(&mut self, bus: &mut Peripherals, dst: Operand8, src: Operand8)
        requires
            old(bus)@.wf(),
            writable8(dst),
        ensures
            (*final(self), final(bus)@) == ld_spec(*old(self), old(bus)@, dst, src),
            final(bus)@.wf(),
    {
        if self.ctx.step == 0 {
            if let Some(v) = self.read8(bus, src) {
                self.ctx.val8 = v;
                self.ctx.step = 1;
            }
        }
        if self.ctx.step == 1 {
            let v = self.ctx.val8;
            if self.write8(bus, dst, v) {
                self.ctx.step = 2;
            }
        }
        if self.ctx.step == 2 {
            self.fetch(bus);
        }
    }

    pub fn ld16(&mut self, bus: &mut Peripherals, dst: Operand16, src: Operand16)
        requires
            old(bus)@.wf(),
            readable16(src),
            writable16(dst),
        ensures
            (*final(self), final(bus)@) == ld16_spec(*old(self), old(bus)@, dst, src),
            final(bus)@.wf(),
    {
        if self.ctx.step == 0 {
            if let Some(v) = self.read16(bus, src) {
                self.ctx.val16 = v;
                self.ctx.step = 1;
            }
        }
        if self.ctx.step == 1 {
            let v = self.ctx.val16;
            if self.write16(bus, dst, v) {
                self.ctx.step = 2;
            }
        }
        if self.ctx.step == 2 {
            self.fetch(bus);
        }
    }

    pub fn cp(&mut self, bus: &Peripherals, src: Operand8)
        requires
            bus@.wf(),
        ensures
            (*final(self), bus@) == cp_spec(*old(self), bus@, src),
    {
        if let Some(v) = self.read8(bus, src) {
            let a = self.regs.a;
            self.regs.set_zf(a == v);
            self.regs.set_nf(true);
            self.regs.set_hf(a & 0x0F < v & 0x0F);
            self.regs.set_cf(a < v);
            self.fetch(bus);
        }
    }

    pub fn inc(&mut self, bus: &mut Peripherals, src: Operand8)
        requires
            old(bus)@.wf(),
            writable8(src),
        ensures
            (*final(self), final(bus)@) == inc_spec(*old(self), old(bus)@, src),
            final(bus)@.wf(),
    {
        if self.ctx.step == 0 {
            if let Some(v) = self.read8(bus, src) {
                apply_inc_flags(&mut self.regs, v);
                self.ctx.val8 = inc8(v);
                self.ctx.step = 1;
            }
        }
        if self.ctx.step == 1 {
            let v = self.ctx.val8;
            if self.write8(bus, src, v) {
                self.fetch(bus);
            }
        }
    }

    pub fn dec(&mut self, bus: &mut Peripherals, src: Operand8)
        requires
            old(bus)@.wf(),
            writable8(src),
        ensures
            (*final(self), final(bus)@) == dec_spec(*old(self), old(bus)@, src),
            final(bus)@.wf(),
    {
        if self.ctx.step == 0 {
            if let Some(v) = self.read8(bus, src) {
                apply_dec_flags(&mut self.regs, v);
                self.ctx.val8 = dec8(v);
                self.ctx.step = 1;
            }
        }
        if self.ctx.step == 1 {
            let v = self.ctx.val8;
            if self.write8(bus, src, v) {
                self.fetch(bus);
            }
        }
    }

    pub fn inc16(&mut self, bus: &Peripherals, r: Reg16)
        requires
            bus@.wf(),
        ensures
            (*final(self), bus@) == inc16_spec(*old(self), bus@, r),
    {
        if self.ctx.step == 0 {
            let v = self.regs.read16(r);
            self.regs.write16(r, v.wrapping_add(1));
            self.ctx.step = 1;
        } else {
            self.fetch(bus);
        }
    }

    pub fn dec16(&mut self, bus: &Peripherals, r: Reg16)
        requires
            bus@.wf(),
        ensures
            (*final(self), bus@) == dec16_spec(*old(self), bus@, r),
    {
        if self.ctx.step == 0 {
            let v = self.regs.read16(r);
            self.regs.write16(r, v.wrapping_sub(1));
            self.ctx.step = 1;
        } else {
            self.fetch(bus);
        }
    }

    pub fn rl(&mut self, bus: &mut Peripherals, src: Operand8)
        requires
            old(bus)@.wf(),
            writable8(src),
        ensures
            (*final(self), final(bus)@) == rl_spec(*old(self), old(bus)@, src),
            final(bus)@.wf(),
    {
        if self.ctx.step == 0 {
            if let Some(v) = self.read8(bus, src) {
                let result = rotate_left(v, self.regs.cf());
                self.regs.set_zf(result == 0);
                self.regs.set_nf(false);
                self.regs.set_hf(false);
                self.regs.set_cf(v >= 0x80);
                self.ctx.val8 = result;
                self.ctx.step = 1;
            }
        }
        if self.ctx.step == 1 {
            let v = self.ctx.val8;
            if self.write8(bus, src, v) {
                self.fetch(bus);
            }
        }
    }

    pub fn bit(&mut self, bus: &Peripherals, n: u8, src: Operand8)
        requires
            bus@.wf(),
            n < 8,
        ensures
            (*final(self), bus@) == bit_spec(*old(self), bus@, n, src),
    {
        if let Some(v) = self.read8(bus, src) {
            self.regs.set_zf(v & (1u8 << n) == 0);
            self.regs.set_nf(false);
            self.regs.set_hf(true);
            self.fetch(bus);
        }
    }

    fn jump(&mut self, v: u8)
        ensures
            *final(self) == jumped(*old(self), v),
    {
        if v < 0x80 {
            self.regs.pc = self.regs.pc.wrapping_add(v as u16);
        } else {
            self.regs.pc = self.regs.pc.wrapping_sub(0x100 - v as u16);
        }
    }

    pub fn jr(&mut self, bus: &Peripherals)
        requires
            bus@.wf(),
        ensures
            (*final(self), bus@) == jr_spec(*old(self), bus@),
    {
        if self.ctx.step == 0 {
            if let Some(v) = self.read8(bus, Operand8::Imm(Imm8)) {
                self.jump(v);
                self.ctx.step = 1;
            }
        } else {
            self.fetch(bus);
        }
    }

    pub fn jr_c(&mut self, bus: &Peripherals, cond: Cond)
        requires
            bus@.wf(),
        ensures
            (*final(self), bus@) == jr_c_spec(*old(self), bus@, cond),
    {
        if self.ctx.step == 0 {
            if let Some(v) = self.read8(bus, Operand8::Imm(Imm8)) {
                let taken = match cond {
                    Cond::NZ => !self.regs.zf(),
                    Cond::Z => self.regs.zf(),
                    Cond::NC => !self.regs.cf(),
                    Cond::C => self.regs.cf(),
                };
                if taken {
                    self.jump(v);
                    self.ctx.step = 1;
                } else {
                    self.fetch(bus);
                }
            }
        } else {
            self.fetch(bus);
        }
    }

    pub fn push(&mut self, bus: &mut Peripherals, r: Reg16)
        requires
            old(bus)@.wf(),
        ensures
            (*final(self), final(bus)@) == push_spec(*old(self), old(bus)@, r),
            final(bus)@.wf(),
    {
        if self.ctx.step == 0 {
            self.ctx.val16 = self.regs.read16(r);
            self.ctx.step = 1;
        }
        if self.ctx.step == 1 {
            let v = self.ctx.val16;
            if self.push16(bus, v) {
                self.ctx.step = 2;
            }
        }
        if self.ctx.step == 2 {
            self.fetch(bus);
        }
    }

    pub fn pop(&mut self, bus: &Peripherals, r: Reg16)
        requires
            bus@.wf(),
        ensures
            (*final(self), bus@) == pop_spec(*old(self), bus@, r),
    {
        if let Some(v) = self.pop16(bus) {
            self.regs.write16(r, v);
            self.fetch(bus);
        }
    }

    pub fn call(&mut self, bus: &mut Peripherals)
        requires
            old(bus)@.wf(),
        ensures
            (*final(self), final(bus)@) == call_spec(*old(self), old(bus)@),
            final(bus)@.wf(),
    {
        if self.ctx.step == 0 {
            if let Some(v) = self.read16(bus, Operand16::Imm(crate::operand::Imm16)) {
                self.ctx.val16 = v;
                self.ctx.step = 1;
            }
        }
        if self.ctx.step == 1 {
            let pc = self.regs.pc;
            if self.push16(bus, pc) {
                self.regs.pc = self.ctx.val16;
                self.fetch(bus);
            }
        }
    }

    pub fn ret(&mut self, bus: &Peripherals)
        requires
            bus@.wf(),
        ensures
            (*final(self), bus@) == ret_spec(*old(self), bus@, false),
    {
        if self.ctx.step == 0 {
            if let Some(v) = self.pop16(bus) {
                self.regs.pc = v;
                self.ctx.step = 1;
            }
        } else {
            self.fetch(bus);
        }
    }

    pub fn reti(&mut self, bus: &mut Peripherals)
        requires
            old(bus)@.wf(),
        ensures
            (*final(self), final(bus)@) == ret_spec(*old(self), old(bus)@, true),
            final(bus)@.wf(),
    {
        if self.ctx.step == 0 {
            if let Some(v) = self.pop16(bus) {
                self.regs.pc = v;
                self.ctx.step = 1;
            }
        } else {
            bus.interrupts.ime = true;
            self.fetch(bus);
        }
    }

    /// Enables interrupts at once; the one-instruction delay of the
    /// hardware is not modelled.
    pub fn ei(&mut self, bus: &mut Peripherals)
        requires
            old(bus)@.wf(),
        ensures
            (*final(self), final(bus)@) == set_ime_spec(*old(self), old(bus)@, true),
            final(bus)@.wf(),
    {
        bus.interrupts.ime = true;
        self.fetch(bus);
    }

    pub fn di(&mut self, bus: &mut Peripherals)
        requires
            old(bus)@.wf(),
        ensures
            (*final(self), final(bus)@) == set_ime_spec(*old(self), old(bus)@, false),
            final(bus)@.wf(),
    {
        bus.interrupts.ime = false;
        self.fetch(bus);
    }
}

} // verus!
