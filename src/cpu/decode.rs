use vstd::prelude::*;

use crate::cpu::instructions::{
    bit_spec, call_spec, cp_spec, dec16_spec, dec_spec, inc16_spec, inc_spec, jr_c_spec, jr_spec,
    ld16_spec, ld_spec, nop_spec, pop_spec, push_spec, ret_spec, rl_spec, set_ime_spec,
};
use crate::cpu::{imm8_spec, Cpu, Ctx};
use crate::operand::{
    Cond, Direct16, Direct8, Imm16, Imm8, Indirect, Operand16, Operand8, Reg16, Reg8,
};
use crate::peripherals::{BusView, Peripherals};

verus! {

/// A decoded instruction, with its operands.
#[derive(Clone, Copy, Debug, PartialEq, Eq, Structural)]
pub enum Instr {
    Nop,
    Ld(Operand8, Operand8),
    Ld16(Operand16, Operand16),
    Cp(Operand8),
    Inc(Operand8),
    Dec(Operand8),
    Inc16(Reg16),
    Dec16(Reg16),
    Rl(Operand8),
    Bit(u8, Operand8),
    Jr,
    JrCond(Cond),
    Push(Reg16),
    Pop(Reg16),
    Call,
    Ret,
    Reti,
    Ei,
    Di,
    Prefix,
    Unknown,
}

/// An opcode that this core does not implement; emulation cannot go on.
#[derive(Clone, Copy, Debug, PartialEq, Eq, Structural)]
pub struct UnimplementedOpcode {
    pub opcode: u8,
    pub prefixed: bool,
}

/// The 8-bit operand selected by a 3-bit field: B, C, D, E, H, L, (HL), A.
pub open spec fn r8_spec(i: u8) -> Operand8 {
    if i == 0 {
        Operand8::Reg(Reg8::B)
    } else if i == 1 {
        Operand8::Reg(Reg8::C)
    } else if i == 2 {
        Operand8::Reg(Reg8::D)
    } else if i == 3 {
        Operand8::Reg(Reg8::E)
    } else if i == 4 {
        Operand8::Reg(Reg8::H)
    } else if i == 5 {
        Operand8::Reg(Reg8::L)
    } else if i == 6 {
        Operand8::Ind(Indirect::HL)
    } else {
        Operand8::Reg(Reg8::A)
    }
}

/// The pair selected by a 2-bit field, SP last (loads and arithmetic).
pub open spec fn rp_spec(i: u8) -> Reg16 {
    if i == 0 {
        Reg16::BC
    } else if i == 1 {
        Reg16::DE
    } else if i == 2 {
        Reg16::HL
    } else {
        Reg16::SP
    }
}

/// The pair selected by a 2-bit field, AF last (stack operations).
pub open spec fn rp2_spec(i: u8) -> Reg16 {
    if i == 0 {
        Reg16::BC
    } else if i == 1 {
        Reg16::DE
    } else if i == 2 {
        Reg16::HL
    } else {
        Reg16::AF
    }
}

/// The memory operand of the `LD (rr), A` / `LD A, (rr)` column.
pub open spec fn ind_spec(i: u8) -> Operand8 {
    if i == 0 {
        Operand8::Ind(Indirect::BC)
    } else if i == 1 {
        Operand8::Ind(Indirect::DE)
    } else if i == 2 {
        Operand8::Ind(Indirect::HLI)
    } else {
        Operand8::Ind(Indirect::HLD)
    }
}

pub open spec fn cond_spec(i: u8) -> Cond {
    if i == 0 {
        Cond::NZ
    } else if i == 1 {
        Cond::Z
    } else if i == 2 {
        Cond::NC
    } else {
        Cond::C
    }
}

/// The plain opcode table. An opcode splits into fields x (bits 7-6),
/// y (bits 5-3) and z (bits 2-0); y splits into p (bits 5-4) and q (bit 3).
pub open spec fn instr_of(op: u8) -> Instr {
    let x = op / 64;
    let y = (op / 8) % 8;
    let z = op % 8;
    let p = y / 2;
    let q = y % 2;
    let a = Operand8::Reg(Reg8::A);
    if op == 0x00 {
        Instr::Nop
    } else if op == 0x08 {
        Instr::Ld16(Operand16::Dir(Direct16), Operand16::Reg(Reg16::SP))
    } else if op == 0x18 {
        Instr::Jr
    } else if x == 0 && z == 0 && y >= 4 {
        Instr::JrCond(cond_spec((y - 4) as u8))
    } else if x == 0 && z == 1 && q == 0 {
        Instr::Ld16(Operand16::Reg(rp_spec(p)), Operand16::Imm(Imm16))
    } else if x == 0 && z == 2 && q == 0 {
        Instr::Ld(ind_spec(p), a)
    } else if x == 0 && z == 2 {
        Instr::Ld(a, ind_spec(p))
    } else if x == 0 && z == 3 && q == 0 {
        Instr::Inc16(rp_spec(p))
    } else if x == 0 && z == 3 {
        Instr::Dec16(rp_spec(p))
    } else if x == 0 && z == 4 {
        Instr::Inc(r8_spec(y))
    } else if x == 0 && z == 5 {
        Instr::Dec(r8_spec(y))
    } else if x == 0 && z == 6 {
        Instr::Ld(r8_spec(y), Operand8::Imm(Imm8))
    } else if x == 1 && op != 0x76 {
        Instr::Ld(r8_spec(y), r8_spec(z))
    } else if x == 2 && y == 7 {
        Instr::Cp(r8_spec(z))
    } else if x == 3 && z == 1 && q == 0 {
        Instr::Pop(rp2_spec(p))
    } else if x == 3 && z == 5 && q == 0 {
        Instr::Push(rp2_spec(p))
    } else if op == 0xC9 {
        Instr::Ret
    } else if op == 0xCB {
        Instr::Prefix
    } else if op == 0xCD {
        Instr::Call
    } else if op == 0xD9 {
        Instr::Reti
    } else if op == 0xE0 {
        Instr::Ld(Operand8::Dir(Direct8::DFF), a)
    } else if op == 0xE2 {
        Instr::Ld(Operand8::Ind(Indirect::CFF), a)
    } else if op == 0xEA {
        Instr::Ld(Operand8::Dir(Direct8::D), a)
    } else if op == 0xF0 {
        Instr::Ld(a, Operand8::Dir(Direct8::DFF))
    } else if op == 0xF2 {
        Instr::Ld(a, Operand8::Ind(Indirect::CFF))
    } else if op == 0xF3 {
        Instr::Di
    } else if op == 0xFA {
        Instr::Ld(a, Operand8::Dir(Direct8::D))
    } else if op == 0xFB {
        Instr::Ei
    } else if op == 0xFE {
        Instr::Cp(Operand8::Imm(Imm8))
    } else {
        Instr::Unknown
    }
}

/// The 0xCB-prefixed table: `RL r` and `BIT b, r`.
pub open spec fn cb_instr_of(op: u8) -> Instr {
    let x = op / 64;
    let y = (op / 8) % 8;
    let z = op % 8;
    if x == 0 && y == 2 {
        Instr::Rl(r8_spec(z))
    } else if x == 1 {
        Instr::Bit(y, r8_spec(z))
    } else {
        Instr::Unknown
    }
}

/// One cycle of an instruction of the tables (other than the prefix).
pub open spec fn exec_spec(ins: Instr, c: Cpu, b: BusView) -> (Cpu, BusView) {
    match ins {
        Instr::Nop => nop_spec(c, b),
        Instr::Ld(d, s) => ld_spec(c, b, d, s),
        Instr::Ld16(d, s) => ld16_spec(c, b, d, s),
        Instr::Cp(s) => cp_spec(c, b, s),
        Instr::Inc(s) => inc_spec(c, b, s),
        Instr::Dec(s) => dec_spec(c, b, s),
        Instr::Inc16(r) => inc16_spec(c, b, r),
        Instr::Dec16(r) => dec16_spec(c, b, r),
        Instr::Rl(s) => rl_spec(c, b, s),
        Instr::Bit(n, s) => bit_spec(c, b, n, s),
        Instr::Jr => jr_spec(c, b),
        Instr::JrCond(cc) => jr_c_spec(c, b, cc),
        Instr::Push(r) => push_spec(c, b, r),
        Instr::Pop(r) => pop_spec(c, b, r),
        Instr::Call => call_spec(c, b),
        Instr::Ret => ret_spec(c, b, false),
        Instr::Reti => ret_spec(c, b, true),
        Instr::Ei => set_ime_spec(c, b, true),
        Instr::Di => set_ime_spec(c, b, false),
        _ => (c, b),
    }
}

/// One cycle of the prefixed instruction in flight.
pub open spec fn cb_decode_spec(c: Cpu, b: BusView) -> (Cpu, BusView, Result<(), UnimplementedOpcode>) {
    match cb_instr_of(c.ctx.opcode) {
        Instr::Unknown => (c, b, Err(UnimplementedOpcode { opcode: c.ctx.opcode, prefixed: true })),
        ins => {
            let (n, nb) = exec_spec(ins, c, b);
            (n, nb, Ok(()))
        },
    }
}

/// One cycle of the prefix: the second opcode is read as an immediate byte
/// and its instruction starts in the cycle that delivers it.
pub open spec fn cb_prefixed_spec(c: Cpu, b: BusView) -> (Cpu, BusView, Result<(), UnimplementedOpcode>) {
    let (n, r) = imm8_spec(c, b);
    match r {
        Some(v) => cb_decode_spec(Cpu { ctx: Ctx { opcode: v, cb: true, ..n.ctx }, ..n }, b),
        None => (n, b, Ok(())),
    }
}

/// One cycle of the instruction in flight; an unimplemented opcode leaves
/// the state as it is and is reported.
pub open spec fn decode_spec(c: Cpu, b: BusView) -> (Cpu, BusView, Result<(), UnimplementedOpcode>) {
    if c.ctx.cb {
        cb_decode_spec(c, b)
    } else {
        match instr_of(c.ctx.opcode) {
            Instr::Prefix => cb_prefixed_spec(c, b),
            Instr::Unknown => (c, b, Err(UnimplementedOpcode { opcode: c.ctx.opcode, prefixed: false })),
            ins => {
                let (n, nb) = exec_spec(ins, c, b);
                (n, nb, Ok(()))
            },
        }
    }
}

fn r8(i: u8) -> (r: Operand8)
    ensures
        r == r8_spec(i),
{
    if i == 0 {
        Operand8::Reg(Reg8::B)
    } else if i == 1 {
        Operand8::Reg(Reg8::C)
    } else if i == 2 {
        Operand8::Reg(Reg8::D)
    } else if i == 3 {
        Operand8::Reg(Reg8::E)
    } else if i == 4 {
        Operand8::Reg(Reg8::H)
    } else if i == 5 {
        Operand8::Reg(Reg8::L)
    } else if i == 6 {
        Operand8::Ind(Indirect::HL)
    } else {
        Operand8::Reg(Reg8::A)
    }
}

fn rp(i: u8) -> (r: Reg16)
    ensures
        r == rp_spec(i),
{
    if i == 0 {
        Reg16::BC
    } else if i == 1 {
        Reg16::DE
    } else if i == 2 {
        Reg16::HL
    } else {
        Reg16::SP
    }
}

fn rp2(i: u8) -> (r: Reg16)
    ensures
        r == rp2_spec(i),
{
    if i == 0 {
        Reg16::BC
    } else if i == 1 {
        Reg16::DE
    } else if i == 2 {
        Reg16::HL
    } else {
        Reg16::AF
    }
}

fn ind(i: u8) -> (r: Operand8)
    ensures
        r == ind_spec(i),
{
    if i == 0 {
        Operand8::Ind(Indirect::BC)
    } else if i == 1 {
        Operand8::Ind(Indirect::DE)
    } else if i == 2 {
        Operand8::Ind(Indirect::HLI)
    } else {
        Operand8::Ind(Indirect::HLD)
    }
}

fn cond(i: u8) -> (r: Cond)
    ensures
        r == cond_spec(i),
{
    if i == 0 {
        Cond::NZ
    } else if i == 1 {
        Cond::Z
    } else if i == 2 {
        Cond::NC
    } else {
        Cond::C
    }
}

/// Looks an opcode up in the plain table.
pub fn decode_instr(op: u8) -> (r: Instr)
    ensures
        r == instr_of(op),
{
    let x = op / 64;
    let y = (op / 8) % 8;
    let z = op % 8;
    let p = y / 2;
    let q = y % 2;
    let a = Operand8::Reg(Reg8::A);
    if op == 0x00 {
        Instr::Nop
    } else if op == 0x08 {
        Instr::Ld16(Operand16::Dir(Direct16), Operand16::Reg(Reg16::SP))
    } else if op == 0x18 {
        Instr::Jr
    } else if x == 0 && z == 0 && y >= 4 {
        Instr::JrCond(cond(y - 4))
    } else if x == 0 && z == 1 && q == 0 {
        Instr::Ld16(Operand16::Reg(rp(p)), Operand16::Imm(Imm16))
    } else if x == 0 && z == 2 && q == 0 {
        Instr::Ld(ind(p), a)
    } else if x == 0 && z == 2 {
        Instr::Ld(a, ind(p))
    } else if x == 0 && z == 3 && q == 0 {
        Instr::Inc16(rp(p))
    } else if x == 0 && z == 3 {
        Instr::Dec16(rp(p))
    } else if x == 0 && z == 4 {
        Instr::Inc(r8(y))
    } else if x == 0 && z == 5 {
        Instr::Dec(r8(y))
    } else if x == 0 && z == 6 {
        Instr::Ld(r8(y), Operand8::Imm(Imm8))
    } else if x == 1 && op != 0x76 {
        Instr::Ld(r8(y), r8(z))
    } else if x == 2 && y == 7 {
        Instr::Cp(r8(z))
    } else if x == 3 && z == 1 && q == 0 {
        Instr::Pop(rp2(p))
    } else if x == 3 && z == 5 && q == 0 {
        Instr::Push(rp2(p))
    } else if op == 0xC9 {
        Instr::Ret
    } else if op == 0xCB {
        Instr::Prefix
    } else if op == 0xCD {
        Instr::Call
    } else if op == 0xD9 {
        Instr::Reti
    } else if op == 0xE0 {
        Instr::Ld(Operand8::Dir(Direct8::DFF), a)
    } else if op == 0xE2 {
        Instr::Ld(Operand8::Ind(Indirect::CFF), a)
    } else if op == 0xEA {
        Instr::Ld(Operand8::Dir(Direct8::D), a)
    } else if op == 0xF0 {
        Instr::Ld(a, Operand8::Dir(Direct8::DFF))
    } else if op == 0xF2 {
        Instr::Ld(a, Operand8::Ind(Indirect::CFF))
    } else if op == 0xF3 {
        Instr::Di
    } else if op == 0xFA {
        Instr::Ld(a, Operand8::Dir(Direct8::D))
    } else if op == 0xFB {
        Instr::Ei
    } else if op == 0xFE {
        Instr::Cp(Operand8::Imm(Imm8))
    } else {
        Instr::Unknown
    }
}

/// Looks an opcode up in the 0xCB-prefixed table.
pub fn decode_cb_instr(op: u8) -> (r: Instr)
    ensures
        r == cb_instr_of(op),
{
    let x = op / 64;
    let y = (op / 8) % 8;
    let z = op % 8;
    if x == 0 && y == 2 {
        Instr::Rl(r8(z))
    } else if x == 1 {
        Instr::Bit(y, r8(z))
    } else {
        Instr::Unknown
    }
}

impl Cpu {
    /// Runs one cycle of a table instruction.
    fn execute(&mut self, bus: &mut Peripherals, ins: Instr)
        requires
            old(bus)@.wf(),
            ins == instr_of(old(self).ctx.opcode) || ins == cb_instr_of(old(self).ctx.opcode),
        ensures
            (*final(self), final(bus)@) == exec_spec(ins, *old(self), old(bus)@),
            final(bus)@.wf(),
    {
        match ins {
            Instr::Nop => self.nop(bus),
            Instr::Ld(d, s) => self.ld(bus, d, s),
            Instr::Ld16(d, s) => self.ld16(bus, d, s),
            Instr::Cp(s) => self.cp(bus, s),
            Instr::Inc(s) => self.inc(bus, s),
            Instr::Dec(s) => self.dec(bus, s),
            Instr::Inc16(r) => self.inc16(bus, r),
            Instr::Dec16(r) => self.dec16(bus, r),
            Instr::Rl(s) => self.rl(bus, s),
            Instr::Bit(n, s) => self.bit(bus, n, s),
            Instr::Jr => self.jr(bus),
            Instr::JrCond(cc) => self.jr_c(bus, cc),
            Instr::Push(r) => self.push(bus, r),
            Instr::Pop(r) => self.pop(bus, r),
            Instr::Call => self.call(bus),
            Instr::Ret => self.ret(bus),
            Instr::Reti => self.reti(bus),
            Instr::Ei => self.ei(bus),
            Instr::Di => self.di(bus),
            _ => {},
        }
    }

    /// Runs one cycle of the prefixed instruction in flight.
    pub fn cb_decode(&mut self, bus: &mut Peripherals) -> (r: Result<(), UnimplementedOpcode>)
        requires
            old(bus)@.wf(),
        ensures
            (*final(self), final(bus)@, r) == cb_decode_spec(*old(self), old(bus)@),
            final(bus)@.wf(),
    {
        let ins = decode_cb_instr(self.ctx.opcode);
        if ins == Instr::Unknown {
            return Err(UnimplementedOpcode { opcode: self.ctx.opcode, prefixed: true });
        }
        self.execute(bus, ins);
        Ok(())
    }

    /// The 0xCB prefix: reads the second opcode and starts its instruction.
    pub fn cb_prefixed(&mut self, bus: &mut Peripherals) -> (r: Result<(), UnimplementedOpcode>)
        requires
            old(bus)@.wf(),
        ensures
            (*final(self), final(bus)@, r) == cb_prefixed_spec(*old(self), old(bus)@),
            final(bus)@.wf(),
    {
        if let Some(v) = self.read8(bus, Operand8::Imm(Imm8)) {
            self.ctx.opcode = v;
            self.ctx.cb = true;
            self.cb_decode(bus)
        } else {
            Ok(())
        }
    }

    /// Runs one cycle of the instruction in flight.
    pub fn decode(&mut self, bus: &mut Peripherals) -> (r: Result<(), UnimplementedOpcode>)
        requires
            old(bus)@.wf(),
        ensures
            (*final(self), final(bus)@, r) == decode_spec(*old(self), old(bus)@),
            final(bus)@.wf(),
    {
        if self.ctx.cb {
            return self.cb_decode(bus);
        }
        let ins = decode_instr(self.ctx.opcode);
        match ins {
            Instr::Prefix => self.cb_prefixed(bus),
            Instr::Unknown => Err(UnimplementedOpcode { opcode: self.ctx.opcode, prefixed: false }),
            _ => {
                self.execute(bus, ins);
                Ok(())
            },
        }
    }

    /// One machine cycle: exactly one step of the instruction in flight.
    pub fn emulate_cycle(&mut self, bus: &mut Peripherals) -> (r: Result<(), UnimplementedOpcode>)
        requires
            old(bus)@.wf(),
        ensures
            (*final(self), final(bus)@, r) == decode_spec(*old(self), old(bus)@),
            final(bus)@.wf(),
    {
        self.decode(bus)
    }
}

} // verus!
