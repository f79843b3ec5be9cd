use vstd::prelude::*;

use crate::operand::{readable16, writable16, writable8, Direct8, Indirect, Operand16, Operand8, Reg16};
use crate::peripherals::{BusView, Peripherals};
use crate::registers::{
    hi_byte, lo_byte, pair, reg16_spec, reg8_spec, set_reg16_spec, set_reg8_spec, wrap16, Registers,
};

pub mod decode;
pub mod instructions;
pub mod laws;

verus! {

/// Progress of a multi-cycle operand access or stack transfer: the step
/// reached, the low byte of an address being assembled, the address (or
/// word) assembled so far, and a byte read from the bus.
#[derive(Clone, Copy, Debug, PartialEq, Eq, Structural)]
pub struct OpState {
    pub step: u8,
    pub lo: u8,
    pub addr: u16,
    pub data: u8,
}

/// The instruction in flight: its opcode, whether it came from the 0xCB
/// table, the step it has reached with the values it carries between
/// steps, the progress of its current operand access, and the latch of the
/// immediate-byte fetch.
#[derive(Clone, Copy, Debug, PartialEq, Eq, Structural)]
pub struct Ctx {
    pub opcode: u8,
    pub cb: bool,
    pub step: u8,
    pub val8: u8,
    pub val16: u16,
    pub op: OpState,
    pub imm_ready: bool,
    pub imm: u8,
}

/// The processor: its registers and the instruction in flight.
#[derive(Clone, Copy, Debug)]
pub struct Cpu {
    pub regs: Registers,
    pub ctx: Ctx,
}

pub open spec fn idle_op() -> OpState {
    OpState { step: 0, lo: 0, addr: 0, data: 0 }
}

/// The context of an instruction that has just been fetched.
pub open spec fn fresh_ctx(opcode: u8) -> Ctx {
    Ctx { opcode, cb: false, step: 0, val8: 0, val16: 0, op: idle_op(), imm_ready: false, imm: 0 }
}

pub open spec fn with_regs(c: Cpu, r: Registers) -> Cpu {
    Cpu { regs: r, ..c }
}

pub open spec fn with_op(c: Cpu, op: OpState) -> Cpu {
    Cpu { ctx: Ctx { op, ..c.ctx }, ..c }
}

pub open spec fn with_pc(c: Cpu, pc: u16) -> Cpu {
    Cpu { regs: Registers { pc, ..c.regs }, ..c }
}

pub open spec fn with_sp(c: Cpu, sp: u16) -> Cpu {
    Cpu { regs: Registers { sp, ..c.regs }, ..c }
}

/// Reads the opcode at PC, advances PC and starts a new instruction.
pub open spec fn fetch_spec(c: Cpu, b: BusView) -> Cpu {
    Cpu { regs: Registers { pc: wrap16(c.regs.pc + 1), ..c.regs }, ctx: fresh_ctx(b.read_spec(c.regs.pc)) }
}

/// The immediate byte: the first call reads it at PC and advances PC, the
/// next call hands it over.
pub open spec fn imm8_spec(c: Cpu, b: BusView) -> (Cpu, Option<u8>) {
    if !c.ctx.imm_ready {
        (
            Cpu {
                regs: Registers { pc: wrap16(c.regs.pc + 1), ..c.regs },
                ctx: Ctx { imm_ready: true, imm: b.read_spec(c.regs.pc), ..c.ctx },
            },
            None,
        )
    } else {
        (Cpu { ctx: Ctx { imm_ready: false, ..c.ctx }, ..c }, Some(c.ctx.imm))
    }
}

/// The first steps of an operand that takes its address from the
/// instruction stream: step 0 fetches the low byte (for the high page that
/// completes the address), step 1 the high byte; both then stand at step 2.
pub open spec fn addr_stage(c: Cpu, b: BusView, high_page: bool) -> Cpu {
    let c1 = if c.ctx.op.step == 0 {
        let (n, r) = imm8_spec(c, b);
        match r {
            Some(lo) => if high_page {
                with_op(n, OpState { step: 2, lo, addr: (0xFF00 + lo) as u16, ..n.ctx.op })
            } else {
                with_op(n, OpState { step: 1, lo, ..n.ctx.op })
            },
            None => n,
        }
    } else {
        c
    };
    if c1.ctx.op.step == 1 {
        let (n, r) = imm8_spec(c1, b);
        match r {
            Some(hi) => with_op(n, OpState { step: 2, addr: pair(hi, n.ctx.op.lo), ..n.ctx.op }),
            None => n,
        }
    } else {
        c1
    }
}

/// The address that an indirect operand designates.
pub open spec fn indirect_addr(r: Registers, i: Indirect) -> u16 {
    match i {
        Indirect::BC => pair(r.b, r.c),
        Indirect::DE => pair(r.d, r.e),
        Indirect::CFF => (0xFF00 + r.c) as u16,
        _ => pair(r.h, r.l),
    }
}

/// The registers after an indirect access: HL moves for the post-decrement
/// and post-increment forms.
pub open spec fn indirect_post(r: Registers, i: Indirect) -> Registers {
    match i {
        Indirect::HLD => set_reg16_spec(r, Reg16::HL, wrap16(pair(r.h, r.l) - 1)),
        Indirect::HLI => set_reg16_spec(r, Reg16::HL, wrap16(pair(r.h, r.l) + 1)),
        _ => r,
    }
}

/// One call of an 8-bit read: the new processor state and the value, once
/// it is ready. Registers are ready at once; a bus access costs one cycle.
pub open spec fn read8_spec(c: Cpu, b: BusView, src: Operand8) -> (Cpu, Option<u8>) {
    match src {
        Operand8::Reg(r) => (c, Some(reg8_spec(c.regs, r))),
        Operand8::Imm(_) => imm8_spec(c, b),
        Operand8::Ind(i) => if c.ctx.op.step == 0 {
            (
                Cpu {
                    regs: indirect_post(c.regs, i),
                    ctx: Ctx {
                        op: OpState { step: 1, data: b.read_spec(indirect_addr(c.regs, i)), ..c.ctx.op },
                        ..c.ctx
                    },
                },
                None,
            )
        } else {
            (with_op(c, OpState { step: 0, ..c.ctx.op }), Some(c.ctx.op.data))
        },
        Operand8::Dir(d) => {
            let c1 = addr_stage(c, b, d == Direct8::DFF);
            if c1.ctx.op.step == 2 {
                (with_op(c1, OpState { step: 3, data: b.read_spec(c1.ctx.op.addr), ..c1.ctx.op }), None)
            } else if c1.ctx.op.step == 3 {
                (with_op(c1, OpState { step: 0, ..c1.ctx.op }), Some(c1.ctx.op.data))
            } else {
                (c1, None)
            }
        },
    }
}

/// One call of an 8-bit write: the new processor and bus states, and
/// whether the write is complete.
pub open spec fn write8_spec(c: Cpu, b: BusView, dst: Operand8, v: u8) -> (Cpu, BusView, bool) {
    match dst {
        Operand8::Reg(r) => (with_regs(c, set_reg8_spec(c.regs, r, v)), b, true),
        Operand8::Imm(_) => (c, b, true),
        Operand8::Ind(i) => if c.ctx.op.step == 0 {
            (
                Cpu {
                    regs: indirect_post(c.regs, i),
                    ctx: Ctx { op: OpState { step: 1, ..c.ctx.op }, ..c.ctx },
                },
                b.write_spec(indirect_addr(c.regs, i), v),
                false,
            )
        } else {
            (with_op(c, OpState { step: 0, ..c.ctx.op }), b, true)
        },
        Operand8::Dir(d) => {
            let c1 = addr_stage(c, b, d == Direct8::DFF);
            if c1.ctx.op.step == 2 {
                (with_op(c1, OpState { step: 3, ..c1.ctx.op }), b.write_spec(c1.ctx.op.addr, v), false)
            } else if c1.ctx.op.step == 3 {
                (with_op(c1, OpState { step: 0, ..c1.ctx.op }), b, true)
            } else {
                (c1, b, false)
            }
        },
    }
}

/// One call of a 16-bit read; the immediate word costs two cycles.
pub open spec fn read16_spec(c: Cpu, b: BusView, src: Operand16) -> (Cpu, Option<u16>) {
    match src {
        Operand16::Reg(r) => (c, Some(reg16_spec(c.regs, r))),
        _ => {
            let c1 = addr_stage(c, b, false);
            if c1.ctx.op.step == 2 {
                (with_op(c1, OpState { step: 0, ..c1.ctx.op }), Some(c1.ctx.op.addr))
            } else {
                (c1, None)
            }
        },
    }
}

/// One call of a 16-bit write; to a direct address it costs two cycles for
/// the address and one per byte, low byte first.
pub open spec fn write16_spec(c: Cpu, b: BusView, dst: Operand16, v: u16) -> (Cpu, BusView, bool) {
    match dst {
        Operand16::Reg(r) => (with_regs(c, set_reg16_spec(c.regs, r, v)), b, true),
        _ => {
            let c1 = addr_stage(c, b, false);
            if c1.ctx.op.step == 2 {
                (with_op(c1, OpState { step: 3, ..c1.ctx.op }), b.write_spec(c1.ctx.op.addr, lo_byte(v)), false)
            } else if c1.ctx.op.step == 3 {
                (
                    with_op(c1, OpState { step: 4, ..c1.ctx.op }),
                    b.write_spec(wrap16(c1.ctx.op.addr + 1), hi_byte(v)),
                    false,
                )
            } else if c1.ctx.op.step == 4 {
                (with_op(c1, OpState { step: 0, ..c1.ctx.op }), b, true)
            } else {
                (c1, b, false)
            }
        },
    }
}

/// One call of a push of `v`: an internal cycle, then the high byte and the
/// low byte each written below SP, then completion.
pub open spec fn push16_spec(c: Cpu, b: BusView, v: u16) -> (Cpu, BusView, bool) {
    let sp1 = wrap16(c.regs.sp - 1);
    if c.ctx.op.step == 0 {
        (with_op(c, OpState { step: 1, ..c.ctx.op }), b, false)
    } else if c.ctx.op.step == 1 {
        (with_op(with_sp(c, sp1), OpState { step: 2, ..c.ctx.op }), b.write_spec(sp1, hi_byte(v)), false)
    } else if c.ctx.op.step == 2 {
        (with_op(with_sp(c, sp1), OpState { step: 3, ..c.ctx.op }), b.write_spec(sp1, lo_byte(v)), false)
    } else {
        (with_op(c, OpState { step: 0, ..c.ctx.op }), b, true)
    }
}

/// One call of a pop: the low byte and then the high byte read at SP, SP
/// moving up after each, then the word.
pub open spec fn pop16_spec(c: Cpu, b: BusView) -> (Cpu, Option<u16>) {
    let sp1 = wrap16(c.regs.sp + 1);
    if c.ctx.op.step == 0 {
        (with_op(with_sp(c, sp1), OpState { step: 1, lo: b.read_spec(c.regs.sp), ..c.ctx.op }), None)
    } else if c.ctx.op.step == 1 {
        (
            with_op(
                with_sp(c, sp1),
                OpState { step: 2, addr: pair(b.read_spec(c.regs.sp), c.ctx.op.lo), ..c.ctx.op },
            ),
            None,
        )
    } else {
        (with_op(c, OpState { step: 0, ..c.ctx.op }), Some(c.ctx.op.addr))
    }
}

impl Cpu {
    /// Power-on state: registers cleared, and a no-op in flight, so the
    /// first cycle fetches from address 0.
    pub fn new() -> (r: Cpu)
        ensures
            r.regs == (Registers { sp: 0, pc: 0, a: 0, b: 0, c: 0, d: 0, e: 0, f: 0, h: 0, l: 0 }),
            r.ctx == fresh_ctx(0),
    {
        Cpu {
            regs: Registers::new(),
            ctx: Ctx {
                opcode: 0,
                cb: false,
                step: 0,
                val8: 0,
                val16: 0,
                op: OpState { step: 0, lo: 0, addr: 0, data: 0 },
                imm_ready: false,
                imm: 0,
            },
        }
    }

    /// Reads the opcode at PC, advances PC and resets the instruction context.
    pub fn fetch(&mut self, bus: &Peripherals)
        requires
            bus@.wf(),
        ensures
            *final(self) == fetch_spec(*old(self), bus@),
    {
        let opcode = bus.read(self.regs.pc);
        self.regs.pc = self.regs.pc.wrapping_add(1);
        self.ctx = Ctx {
            opcode,
            cb: false,
            step: 0,
            val8: 0,
            val16: 0,
            op: OpState { step: 0, lo: 0, addr: 0, data: 0 },
            imm_ready: false,
            imm: 0,
        };
    }

    fn imm8(&mut self, bus: &Peripherals) -> (r: Option<u8>)
        requires
            bus@.wf(),
        ensures
            (*final(self), r) == imm8_spec(*old(self), bus@),
    {
        if !self.ctx.imm_ready {
            self.ctx.imm = bus.read(self.regs.pc);
            self.ctx.imm_ready = true;
            self.regs.pc = self.regs.pc.wrapping_add(1);
            None
        } else {
            self.ctx.imm_ready = false;
            Some(self.ctx.imm)
        }
    }

    fn addr_stage(&mut self, bus: &Peripherals, high_page: bool)
        requires
            bus@.wf(),
        ensures
            *final(self) == addr_stage(*old(self), bus@, high_page),
    {
        if self.ctx.op.step == 0 {
            if let Some(lo) = self.imm8(bus) {
                self.ctx.op.lo = lo;
                if high_page {
                    self.ctx.op.addr = 0xFF00 + lo as u16;
                    self.ctx.op.step = 2;
                } else {
                    self.ctx.op.step = 1;
                }
            }
        }
        if self.ctx.op.step == 1 {
            if let Some(hi) = self.imm8(bus) {
                self.ctx.op.addr = (hi as u16) * 256 + (self.ctx.op.lo as u16);
                self.ctx.op.step = 2;
            }
        }
    }

    fn indirect_addr(&self, i: Indirect) -> (r: u16)
        ensures
            r == indirect_addr(self.regs, i),
    {
        match i {
            Indirect::BC => self.regs.bc(),
            Indirect::DE => self.regs.de(),
            Indirect::CFF => 0xFF00 + self.regs.c as u16,
            _ => self.regs.hl(),
        }
    }

    fn indirect_post(&mut self, i: Indirect)
        ensures
            *final(self) == with_regs(*old(self), indirect_post(old(self).regs, i)),
    {
        match i {
            Indirect::HLD => {
                let hl = self.regs.hl();
                self.regs.write_hl(hl.wrapping_sub(1));
            },
            Indirect::HLI => {
                let hl = self.regs.hl();
                self.regs.write_hl(hl.wrapping_add(1));
            },
            _ => {},
        }
    }

    /// One cycle's share of reading an 8-bit operand; `None` until the value
    /// is ready.
    pub fn read8(&mut self, bus: &Peripherals, src: Operand8) -> (r: Option<u8>)
        requires
            bus@.wf(),
        ensures
            (*final(self), r) == read8_spec(*old(self), bus@, src),
    {
        match src {
            Operand8::Reg(r) => Some(self.regs.read8(r)),
            Operand8::Imm(_) => self.imm8(bus),
            Operand8::Ind(i) => {
                if self.ctx.op.step == 0 {
                    let addr = self.indirect_addr(i);
                    self.indirect_post(i);
                    self.ctx.op.data = bus.read(addr);
                    self.ctx.op.step = 1;
                    None
                } else {
                    self.ctx.op.step = 0;
                    Some(self.ctx.op.data)
                }
            },
            Operand8::Dir(d) => {
                self.addr_stage(bus, d == Direct8::DFF);
                if self.ctx.op.step == 2 {
                    self.ctx.op.data = bus.read(self.ctx.op.addr);
                    self.ctx.op.step = 3;
                    None
                } else if self.ctx.op.step == 3 {
                    self.ctx.op.step = 0;
                    Some(self.ctx.op.data)
                } else {
                    None
                }
            },
        }
    }

    /// One cycle's share of writing an 8-bit operand; true once the write is
    /// complete.
    pub fn write8(&mut self, bus: &mut Peripherals, dst: Operand8, v: u8) -> (r: bool)
        requires
            old(bus)@.wf(),
            writable8(dst),
        ensures
            (*final(self), final(bus)@, r) == write8_spec(*old(self), old(bus)@, dst, v),
            final(bus)@.wf(),
    {
        match dst {
            Operand8::Reg(r) => {
                self.regs.write8(r, v);
                true
            },
            Operand8::Imm(_) => true,
            Operand8::Ind(i) => {
                if self.ctx.op.step == 0 {
                    let addr = self.indirect_addr(i);
                    self.indirect_post(i);
                    bus.write(addr, v);
                    self.ctx.op.step = 1;
                    false
                } else {
                    self.ctx.op.step = 0;
                    true
                }
            },
            Operand8::Dir(d) => {
                self.addr_stage(bus, d == Direct8::DFF);
                if self.ctx.op.step == 2 {
                    bus.write(self.ctx.op.addr, v);
                    self.ctx.op.step = 3;
                    false
                } else if self.ctx.op.step == 3 {
                    self.ctx.op.step = 0;
                    true
                } else {
                    false
                }
            },
        }
    }

    /// One cycle's share of reading a 16-bit operand.
    pub fn read16(&mut self, bus: &Peripherals, src: Operand16) -> (r: Option<u16>)
        requires
            bus@.wf(),
            readable16(src),
        ensures
            (*final(self), r) == read16_spec(*old(self), bus@, src),
    {
        match src {
            Operand16::Reg(r) => Some(self.regs.read16(r)),
            _ => {
                self.addr_stage(bus, false);
                if self.ctx.op.step == 2 {
                    self.ctx.op.step = 0;
                    Some(self.ctx.op.addr)
                } else {
                    None
                }
            },
        }
    }

    /// One cycle's share of writing a 16-bit operand.
    pub fn write16(&mut self, bus: &mut Peripherals, dst: Operand16, v: u16) -> (r: bool)
        requires
            old(bus)@.wf(),
            writable16(dst),
        ensures
            (*final(self), final(bus)@, r) == write16_spec(*old(self), old(bus)@, dst, v),
            final(bus)@.wf(),
    {
        match dst {
            Operand16::Reg(r) => {
                self.regs.write16(r, v);
                true
            },
            _ => {
                self.addr_stage(bus, false);
                if self.ctx.op.step == 2 {
                    bus.write(self.ctx.op.addr, (v % 256) as u8);
                    self.ctx.op.step = 3;
                    false
                } else if self.ctx.op.step == 3 {
                    bus.write(self.ctx.op.addr.wrapping_add(1), (v / 256) as u8);
                    self.ctx.op.step = 4;
                    false
                } else if self.ctx.op.step == 4 {
                    self.ctx.op.step = 0;
                    true
                } else {
                    false
                }
            },
        }
    }

    /// One cycle's share of pushing `v` onto the stack.
    pub fn push16(&mut self, bus: &mut Peripherals, v: u16) -> (r: bool)
        requires
            old(bus)@.wf(),
        ensures
            (*final(self), final(bus)@, r) == push16_spec(*old(self), old(bus)@, v),
            final(bus)@.wf(),
    {
        if self.ctx.op.step == 0 {
            self.ctx.op.step = 1;
            false
        } else if self.ctx.op.step == 1 {
            self.regs.sp = self.regs.sp.wrapping_sub(1);
            bus.write(self.regs.sp, (v / 256) as u8);
            self.ctx.op.step = 2;
            false
        } else if self.ctx.op.step == 2 {
            self.regs.sp = self.regs.sp.wrapping_sub(1);
            bus.write(self.regs.sp, (v % 256) as u8);
            self.ctx.op.step = 3;
            false
        } else {
            self.ctx.op.step = 0;
            true
        }
    }

    /// One cycle's share of popping a word off the stack.
    pub fn pop16(&mut self, bus: &Peripherals) -> (r: Option<u16>)
        requires
            bus@.wf(),
        ensures
            (*final(self), r) == pop16_spec(*old(self), bus@),
    {
        if self.ctx.op.step == 0 {
            self.ctx.op.lo = bus.read(self.regs.sp);
            self.regs.sp = self.regs.sp.wrapping_add(1);
            self.ctx.op.step = 1;
            None
        } else if self.ctx.op.step == 1 {
            let hi = bus.read(self.regs.sp);
            self.regs.sp = self.regs.sp.wrapping_add(1);
            self.ctx.op.addr = (hi as u16) * 256 + (self.ctx.op.lo as u16);
            self.ctx.op.step = 2;
            None
        } else {
            self.ctx.op.step = 0;
            Some(self.ctx.op.addr)
        }
    }
}

} // verus!
