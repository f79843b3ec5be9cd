use vstd::prelude::*;

use crate::interrupts::{Interrupts, IE_ADDR, IF_ADDR};
use crate::mem::{byte_or_open, cartridge_read, cartridge_write, Bootrom, Cartridge, Ram};
use crate::ppu::{is_ppu_addr, lemma_write_keeps_wf, power_on_view, Ppu, PpuView};

verus! {

pub const WRAM_SIZE: usize = 0x2000;

pub const HRAM_SIZE: usize = 0x80;

pub const TIMER_REGS: usize = 4;

/// Address whose write switches the boot overlay off.
pub const BOOTROM_OFF: u16 = 0xFF50;

/// Everything the bus can reach, with memories as sequences.
#[verifier::ext_equal]
pub struct BusView {
    pub boot: Seq<u8>,
    pub boot_active: bool,
    pub rom: Seq<u8>,
    pub sram: Seq<u8>,
    pub wram: Seq<u8>,
    pub hram: Seq<u8>,
    pub timer: Seq<u8>,
    pub ppu: PpuView,
    pub ints: Interrupts,
}

pub open spec fn is_wram_addr(addr: u16) -> bool {
    0xC000 <= addr <= 0xFDFF
}

pub open spec fn is_hram_addr(addr: u16) -> bool {
    0xFF80 <= addr <= 0xFFFE
}

pub open spec fn is_timer_addr(addr: u16) -> bool {
    0xFF04 <= addr <= 0xFF07
}

/// Addresses backed by plain RAM, where a read returns the last byte written.
pub open spec fn is_ram_addr(addr: u16) -> bool {
    is_wram_addr(addr) || is_hram_addr(addr)
}

impl BusView {
    pub open spec fn wf(self) -> bool {
        &&& self.wram.len() == WRAM_SIZE
        &&& self.hram.len() == HRAM_SIZE
        &&& self.timer.len() == TIMER_REGS
        &&& self.ppu.wf()
    }

    /// The byte that a read of `addr` returns.
    pub open spec fn read_spec(self, addr: u16) -> u8 {
        if addr <= 0x00FF {
            if self.boot_active {
                byte_or_open(self.boot, addr as int)
            } else {
                cartridge_read(self.rom, self.sram, addr)
            }
        } else if addr <= 0x7FFF || (0xA000 <= addr <= 0xBFFF) {
            cartridge_read(self.rom, self.sram, addr)
        } else if is_ppu_addr(addr) {
            self.ppu.read_spec(addr)
        } else if is_wram_addr(addr) {
            self.wram[addr as int % WRAM_SIZE as int]
        } else if is_timer_addr(addr) {
            self.timer[addr as int % TIMER_REGS as int]
        } else if addr == IF_ADDR || addr == IE_ADDR {
            self.ints.read_spec(addr)
        } else if is_hram_addr(addr) {
            self.hram[addr as int % HRAM_SIZE as int]
        } else {
            0xFF
        }
    }

    /// The state after a write of `val` at `addr`.
    pub open spec fn write_spec(self, addr: u16, val: u8) -> BusView {
        if addr <= 0x00FF {
            if self.boot_active {
                self
            } else {
                BusView { sram: cartridge_write(self.sram, addr, val), ..self }
            }
        } else if addr <= 0x7FFF || (0xA000 <= addr <= 0xBFFF) {
            BusView { sram: cartridge_write(self.sram, addr, val), ..self }
        } else if is_ppu_addr(addr) {
            BusView { ppu: self.ppu.write_spec(addr, val), ..self }
        } else if is_wram_addr(addr) {
            BusView { wram: self.wram.update(addr as int % WRAM_SIZE as int, val), ..self }
        } else if is_timer_addr(addr) {
            BusView { timer: self.timer.update(addr as int % TIMER_REGS as int, val), ..self }
        } else if addr == IF_ADDR || addr == IE_ADDR {
            BusView { ints: self.ints.write_spec(addr, val), ..self }
        } else if addr == BOOTROM_OFF {
            BusView { boot_active: self.boot_active && val == 0, ..self }
        } else if is_hram_addr(addr) {
            BusView { hram: self.hram.update(addr as int % HRAM_SIZE as int, val), ..self }
        } else {
            self
        }
    }
}

/// A write keeps the bus well formed.
pub proof fn lemma_bus_write_keeps_wf(b: BusView, addr: u16, val: u8)
    requires
        b.wf(),
    ensures
        b.write_spec(addr, val).wf(),
{
    lemma_write_keeps_wf(b.ppu, addr, val);
}

/// At a RAM address a read returns what was last written there, and a
/// write elsewhere in RAM leaves it alone.
pub proof fn lemma_ram_read_after_write(b: BusView, addr: u16, val: u8, other: u16)
    requires
        b.wf(),
        is_ram_addr(addr),
        is_ram_addr(other),
        other != addr,
        !(is_wram_addr(addr) && is_wram_addr(other) && (other - addr) % (WRAM_SIZE as int) == 0),
    ensures
        b.write_spec(addr, val).read_spec(addr) == val,
        b.write_spec(addr, val).read_spec(other) == b.read_spec(other),
{
}

/// The address decoder and the devices behind it.
pub struct Peripherals {
    pub bootrom: Bootrom,
    pub wram: Ram,
    pub hram: Ram,
    pub ppu: Ppu,
    pub timer: Ram,
    pub cartridge: Cartridge,
    pub interrupts: Interrupts,
}

impl View for Peripherals {
    type V = BusView;

    open spec fn view(&self) -> BusView {
        BusView {
            boot: self.bootrom@.0,
            boot_active: self.bootrom@.1,
            rom: self.cartridge@.0,
            sram: self.cartridge@.1,
            wram: self.wram@,
            hram: self.hram@,
            timer: self.timer@,
            ppu: self.ppu@,
            ints: self.interrupts,
        }
    }
}

impl Peripherals {
    /// The devices at power-on: RAM and PPU cleared, interrupts off.
    pub fn new(bootrom: Bootrom, cartridge: Cartridge) -> (r: Peripherals)
        ensures
            r@.wf(),
            r@.boot == bootrom@.0,
            r@.boot_active == bootrom@.1,
            r@.rom == cartridge@.0,
            r@.sram == cartridge@.1,
            r@.wram == Seq::new(WRAM_SIZE as nat, |i: int| 0u8),
            r@.hram == Seq::new(HRAM_SIZE as nat, |i: int| 0u8),
            r@.timer == Seq::new(TIMER_REGS as nat, |i: int| 0u8),
            r@.ppu == power_on_view(),
            r@.ints == (Interrupts { ime: false, int_flags: 0, int_enable: 0 }),
    {
        Peripherals {
            bootrom,
            wram: Ram::new(WRAM_SIZE),
            hram: Ram::new(HRAM_SIZE),
            ppu: Ppu::new(),
            timer: Ram::new(TIMER_REGS),
            cartridge,
            interrupts: Interrupts::new(),
        }
    }

    pub fn read(&self, addr: u16) -> (r: u8)
        requires
            self@.wf(),
        ensures
            r == self@.read_spec(addr),
    {
        if addr <= 0x00FF {
            if self.bootrom.is_active() {
                self.bootrom.read(addr)
            } else {
                self.cartridge.read(addr)
            }
        } else if addr <= 0x7FFF || (0xA000 <= addr && addr <= 0xBFFF) {
            self.cartridge.read(addr)
        } else if (0x8000 <= addr && addr <= 0x9FFF) || (0xFE00 <= addr && addr <= 0xFE9F) || (
        0xFF40 <= addr && addr <= 0xFF4B) {
            self.ppu.read(addr)
        } else if 0xC000 <= addr && addr <= 0xFDFF {
            self.wram.read(addr)
        } else if 0xFF04 <= addr && addr <= 0xFF07 {
            self.timer.read(addr)
        } else if addr == IF_ADDR || addr == IE_ADDR {
            self.interrupts.read(addr)
        } else if 0xFF80 <= addr && addr <= 0xFFFE {
            self.hram.read(addr)
        } else {
            0xFF
        }
    }

    pub fn write(&mut self, addr: u16, val: u8)
        requires
            old(self)@.wf(),
        ensures
            final(self)@ == old(self)@.write_spec(addr, val),
            final(self)@.wf(),
    {
        if addr <= 0x00FF {
            if !self.bootrom.is_active() {
                self.cartridge.write(addr, val);
            }
        } else if addr <= 0x7FFF || (0xA000 <= addr && addr <= 0xBFFF) {
            self.cartridge.write(addr, val);
        } else if (0x8000 <= addr && addr <= 0x9FFF) || (0xFE00 <= addr && addr <= 0xFE9F) || (
        0xFF40 <= addr && addr <= 0xFF4B) {
            self.ppu.write(addr, val);
        } else if 0xC000 <= addr && addr <= 0xFDFF {
            self.wram.write(addr, val);
        } else if 0xFF04 <= addr && addr <= 0xFF07 {
            self.timer.write(addr, val);
        } else if addr == IF_ADDR || addr == IE_ADDR {
            self.interrupts.write(addr, val);
        } else if addr == BOOTROM_OFF {
            self.bootrom.write(val);
        } else if 0xFF80 <= addr && addr <= 0xFFFE {
            self.hram.write(addr, val);
        }
        assert(self@ =~= old(self)@.write_spec(addr, val));
    }
}

} // verus!
