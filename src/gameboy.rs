use vstd::prelude::*;

use crate::cpu::decode::{decode_spec, UnimplementedOpcode};
use crate::cpu::{fresh_ctx, Cpu};
use crate::mem::{Bootrom, Cartridge};
use crate::peripherals::{BusView, Peripherals};
use crate::registers::Registers;

verus! {

pub const CPU_CLOCK_HZ: u128 = 4_194_304;

/// Clock ticks per machine cycle.
pub const M_CYCLE_CLOCK: u128 = 4;

/// Length of a machine cycle in nanoseconds, rounded down.
pub const M_CYCLE_NANOS: u128 = M_CYCLE_CLOCK * 1_000_000_000 / CPU_CLOCK_HZ;

/// The number of whole machine cycles that fit in the time by which
/// `elapsed` is ahead of `emulated` (nanoseconds).
pub fn cycles_due(elapsed: u128, emulated: u128) -> (r: u128)
    ensures
        r == if elapsed >= emulated {
            (elapsed - emulated) / M_CYCLE_NANOS as int
        } else {
            0
        },
{
    if elapsed >= emulated {
        (elapsed - emulated) / M_CYCLE_NANOS
    } else {
        0
    }
}

/// One machine cycle of the whole console: the CPU step, then (unless the
/// CPU met an unimplemented opcode) the PPU step, whose frame-complete
/// signal is returned.
pub open spec fn machine_cycle_spec(c: Cpu, b: BusView) -> (Cpu, BusView, Result<bool, UnimplementedOpcode>) {
    let (c1, b1, r) = decode_spec(c, b);
    match r {
        Err(e) => (c1, b1, Err(e)),
        Ok(()) => {
            let (p, frame) = b1.ppu.step_spec();
            (c1, BusView { ppu: p, ..b1 }, Ok(frame))
        },
    }
}

/// The console: the processor and everything on its bus.
pub struct GameBoy {
    pub cpu: Cpu,
    pub peripherals: Peripherals,
}

impl GameBoy {
    pub fn new(bootrom: Bootrom, cartridge: Cartridge) -> (r: GameBoy)
        ensures
            r.cpu.regs == (Registers { sp: 0, pc: 0, a: 0, b: 0, c: 0, d: 0, e: 0, f: 0, h: 0, l: 0 }),
            r.cpu.ctx == fresh_ctx(0),
            r.peripherals@.wf(),
            r.peripherals@.boot == bootrom@.0,
            r.peripherals@.boot_active == bootrom@.1,
            r.peripherals@.rom == cartridge@.0,
            r.peripherals@.sram == cartridge@.1,
    {
        GameBoy { cpu: Cpu::new(), peripherals: Peripherals::new(bootrom, cartridge) }
    }

    /// Advances the console by one machine cycle; `Ok(true)` when a frame
    /// has just been completed and the frame buffer is ready to show.
    pub fn emulate_cycle(&mut self) -> (r: Result<bool, UnimplementedOpcode>)
        requires
            old(self).peripherals@.wf(),
        ensures
            (final(self).cpu, final(self).peripherals@, r) == machine_cycle_spec(
                old(self).cpu,
                old(self).peripherals@,
            ),
            final(self).peripherals@.wf(),
    {
        match self.cpu.emulate_cycle(&mut self.peripherals) {
            Err(e) => Err(e),
            Ok(()) => {
                let frame = self.peripherals.ppu.emulate_cycle();
                Ok(frame)
            },
        }
    }
}

} // verus!
