use vstd::prelude::*;

use crate::cpu::instructions::{
    cond_holds, cp_spec, dec_flags, dec_spec, inc_flags, inc_spec, jr_c_spec, pop_spec, push_spec,
    signed8,
};
use crate::cpu::{fetch_spec, with_pc, with_regs, with_sp, Cpu};
use crate::operand::{Cond, Indirect, Operand8, Reg16, Reg8};
use crate::peripherals::{is_ram_addr, lemma_bus_write_keeps_wf, lemma_ram_read_after_write, BusView};
use crate::registers::{
    flag, hi_byte, lemma_pair_bytes, lo_byte, pair, set_reg16_spec, reg16_spec, reg8_spec, with_flag, wrap16, wrap8, FLAG_C, FLAG_H, FLAG_N, FLAG_Z,
};

verus! {

proof fn lemma_other_flag(f: u8, m: u8, on: bool, other: u8)
    requires
        m & other == 0,
    ensures
        flag(with_flag(f, m, on), other) == flag(f, other),
{
    assert(m & other == 0 ==> ((f | m) & other != 0) == (f & other != 0)) by (bit_vector);
    assert(m & other == 0 ==> ((f & !m) & other != 0) == (f & other != 0)) by (bit_vector);
}

/// An 8-bit increment and a decrement undo each other, in either order,
/// and neither changes the carry flag.
pub proof fn lemma_inc_dec_values(v: u8, f: u8)
    ensures
        wrap8(wrap8(v + 1) - 1) == v,
        wrap8(wrap8(v - 1) + 1) == v,
        flag(inc_flags(f, v), FLAG_C) == flag(f, FLAG_C),
        flag(dec_flags(f, v), FLAG_C) == flag(f, FLAG_C),
{
    assert(FLAG_Z & FLAG_C == 0) by (bit_vector);
    assert(FLAG_N & FLAG_C == 0) by (bit_vector);
    assert(FLAG_H & FLAG_C == 0) by (bit_vector);
    lemma_other_flag(f, FLAG_Z, wrap8(v + 1) == 0, FLAG_C);
    let f1 = with_flag(f, FLAG_Z, wrap8(v + 1) == 0);
    lemma_other_flag(f1, FLAG_N, false, FLAG_C);
    let f2 = with_flag(f1, FLAG_N, false);
    lemma_other_flag(f2, FLAG_H, v & 0x0F == 0x0F, FLAG_C);
    lemma_other_flag(f, FLAG_Z, wrap8(v - 1) == 0, FLAG_C);
    let g1 = with_flag(f, FLAG_Z, wrap8(v - 1) == 0);
    lemma_other_flag(g1, FLAG_N, true, FLAG_C);
    let g2 = with_flag(g1, FLAG_N, true);
    lemma_other_flag(g2, FLAG_H, v & 0x0F == 0, FLAG_C);
}

/// `INC r` followed by `DEC r` (or `DEC r` followed by `INC r`) on a
/// register restores the register, keeps the carry flag, and leaves the
/// bus alone; each instruction takes one cycle.
pub proof fn lemma_inc_dec_round_trip(c: Cpu, b: BusView, r: Reg8)
    requires
        c.ctx.step == 0,
        r != Reg8::F,
    ensures
        ({
            let (c1, b1) = inc_spec(c, b, Operand8::Reg(r));
            let (c2, b2) = dec_spec(c1, b1, Operand8::Reg(r));
            reg8_spec(c2.regs, r) == reg8_spec(c.regs, r) && flag(c2.regs.f, FLAG_C) == flag(
                c.regs.f,
                FLAG_C,
            ) && b2 == b
        }),
        ({
            let (c1, b1) = dec_spec(c, b, Operand8::Reg(r));
            let (c2, b2) = inc_spec(c1, b1, Operand8::Reg(r));
            reg8_spec(c2.regs, r) == reg8_spec(c.regs, r) && flag(c2.regs.f, FLAG_C) == flag(
                c.regs.f,
                FLAG_C,
            ) && b2 == b
        }),
{
    let v = reg8_spec(c.regs, r);
    lemma_inc_dec_values(v, c.regs.f);
    let (c1, b1) = inc_spec(c, b, Operand8::Reg(r));
    lemma_inc_dec_values(reg8_spec(c1.regs, r), c1.regs.f);
    let (d1, e1) = dec_spec(c, b, Operand8::Reg(r));
    lemma_inc_dec_values(reg8_spec(d1.regs, r), d1.regs.f);
}

/// `CP` changes no register but F and PC, and never the bus.
pub proof fn lemma_cp_only_flags(c: Cpu, b: BusView, src: Operand8)
    requires
        src is Reg || src is Imm || src == Operand8::Ind(Indirect::HL),
    ensures
        ({
            let (c1, b1) = cp_spec(c, b, src);
            &&& b1 == b
            &&& c1.regs.a == c.regs.a
            &&& c1.regs.b == c.regs.b
            &&& c1.regs.c == c.regs.c
            &&& c1.regs.d == c.regs.d
            &&& c1.regs.e == c.regs.e
            &&& c1.regs.h == c.regs.h
            &&& c1.regs.l == c.regs.l
            &&& c1.regs.sp == c.regs.sp
        }),
{
}

/// The four cycles of `PUSH r`: SP drops by two, the high byte of `r` lands
/// just below the old SP and the low byte below it, and the fourth cycle
/// fetches the next instruction.
pub proof fn lemma_push_cycles(c: Cpu, b: BusView, src: Reg16)
    requires
        b.wf(),
        c.ctx.step == 0,
        c.ctx.op.step == 0,
    ensures
        ({
            let v = reg16_spec(c.regs, src);
            let (c1, b1) = push_spec(c, b, src);
            let (c2, b2) = push_spec(c1, b1, src);
            let (c3, b3) = push_spec(c2, b2, src);
            let (c4, b4) = push_spec(c3, b3, src);
            let sp2 = wrap16(c.regs.sp - 2);
            &&& b4 == b.write_spec(wrap16(c.regs.sp - 1), hi_byte(v)).write_spec(sp2, lo_byte(v))
            &&& c4 == fetch_spec(with_sp(c, sp2), b4)
        }),
{
    let v = reg16_spec(c.regs, src);
    let (c1, b1) = push_spec(c, b, src);
    assert(c1.ctx.step == 1 && c1.ctx.op.step == 1 && c1.ctx.val16 == v && c1.regs == c.regs && b1 == b);
    let (c2, b2) = push_spec(c1, b1, src);
    assert(c2.ctx.step == 1 && c2.ctx.op.step == 2 && c2.ctx.val16 == v);
    assert(c2.regs == with_sp(c, wrap16(c.regs.sp - 1)).regs);
    let (c3, b3) = push_spec(c2, b2, src);
    assert(c3.ctx.step == 1 && c3.ctx.op.step == 3);
    assert(c3.regs == with_sp(c, wrap16(c.regs.sp - 2)).regs);
}

/// The three cycles of `POP r`: `r` receives the little-endian word at SP,
/// SP rises by two, and the third cycle fetches the next instruction.
pub proof fn lemma_pop_cycles(c: Cpu, b: BusView, dst: Reg16)
    requires
        b.wf(),
        c.ctx.op.step == 0,
    ensures
        ({
            let (c1, b1) = pop_spec(c, b, dst);
            let (c2, b2) = pop_spec(c1, b1, dst);
            let (c3, b3) = pop_spec(c2, b2, dst);
            let w = pair(b.read_spec(wrap16(c.regs.sp + 1)), b.read_spec(c.regs.sp));
            &&& b3 == b
            &&& c3 == fetch_spec(
                with_regs(c, set_reg16_spec(with_sp(c, wrap16(c.regs.sp + 2)).regs, dst, w)),
                b,
            )
        }),
{
    let (c1, b1) = pop_spec(c, b, dst);
    assert(c1.ctx.op.step == 1 && c1.regs == with_sp(c, wrap16(c.regs.sp + 1)).regs);
    let (c2, b2) = pop_spec(c1, b1, dst);
    assert(c2.ctx.op.step == 2 && c2.regs == with_sp(c, wrap16(c.regs.sp + 2)).regs);
}

/// `PUSH r` then `POP r2` leaves in `r2` the value `r` had, and SP where it
/// was, when the two stack bytes below SP are RAM. Popping into AF clears
/// the low nibble of F, so there the low nibble of the pushed value must be
/// clear.
pub proof fn lemma_push_pop(c: Cpu, b: BusView, src: Reg16, dst: Reg16)
    requires
        b.wf(),
        c.ctx.step == 0,
        c.ctx.op.step == 0,
        src != Reg16::SP,
        dst != Reg16::SP,
        dst == Reg16::AF ==> lo_byte(reg16_spec(c.regs, src)) & 0x0F == 0,
        is_ram_addr(wrap16(c.regs.sp - 1)),
        is_ram_addr(wrap16(c.regs.sp - 2)),
    ensures
        ({
            let (c1, b1) = push_spec(c, b, src);
            let (c2, b2) = push_spec(c1, b1, src);
            let (c3, b3) = push_spec(c2, b2, src);
            let (c4, b4) = push_spec(c3, b3, src);
            let (c5, b5) = pop_spec(c4, b4, dst);
            let (c6, b6) = pop_spec(c5, b5, dst);
            let (c7, b7) = pop_spec(c6, b6, dst);
            reg16_spec(c7.regs, dst) == reg16_spec(c.regs, src) && c7.regs.sp == c.regs.sp
        }),
{
    let v = reg16_spec(c.regs, src);
    let hi_addr = wrap16(c.regs.sp - 1);
    let lo_addr = wrap16(c.regs.sp - 2);
    lemma_push_cycles(c, b, src);
    let (c1, b1) = push_spec(c, b, src);
    let (c2, b2) = push_spec(c1, b1, src);
    let (c3, b3) = push_spec(c2, b2, src);
    let (c4, b4) = push_spec(c3, b3, src);
    let bh = b.write_spec(hi_addr, hi_byte(v));
    lemma_bus_write_keeps_wf(b, hi_addr, hi_byte(v));
    lemma_bus_write_keeps_wf(bh, lo_addr, lo_byte(v));
    lemma_ram_read_after_write(b, hi_addr, hi_byte(v), lo_addr);
    lemma_ram_read_after_write(bh, lo_addr, lo_byte(v), hi_addr);
    assert(b4.read_spec(lo_addr) == lo_byte(v));
    assert(b4.read_spec(hi_addr) == hi_byte(v));
    assert(c4.regs.sp == lo_addr);
    assert(wrap16(lo_addr + 1) == hi_addr);
    assert(wrap16(lo_addr + 2) == c.regs.sp);
    lemma_pop_cycles(c4, b4, dst);
    lemma_pair_bytes(v);
    assert(forall|x: u8| x & 0x0F == 0 ==> x & 0xF0 == x) by (bit_vector);
}

/// `JR cc, e`: the first cycle reads the offset; when the condition fails
/// the second cycle already fetches the next instruction, just after the
/// offset; when it holds, the second cycle only moves PC to the target
/// (the address after the offset plus the signed offset) and the third
/// fetches there. So the taken branch costs one cycle more.
pub proof fn lemma_jr_cond_timing(c: Cpu, b: BusView, cond: Cond)
    requires
        c.ctx.step == 0,
        !c.ctx.imm_ready,
    ensures
        ({
            let after = wrap16(c.regs.pc + 1);
            let target = wrap16(after + signed8(b.read_spec(c.regs.pc)));
            let (c1, b1) = jr_c_spec(c, b, cond);
            let (c2, b2) = jr_c_spec(c1, b1, cond);
            let (c3, b3) = jr_c_spec(c2, b2, cond);
            &&& b1 == b && b2 == b && b3 == b
            &&& c1.regs.pc == after && c1.ctx.step == 0 && c1.ctx.opcode == c.ctx.opcode
            &&& !cond_holds(c.regs, cond) ==> c2 == fetch_spec(with_pc(c, after), b)
            &&& cond_holds(c.regs, cond) ==> c2.ctx.step == 1 && c2.regs.pc == target
                && c2.ctx.opcode == c.ctx.opcode
            &&& cond_holds(c.regs, cond) ==> c3 == fetch_spec(with_pc(c, target), b)
        }),
{
}

} // verus!
