//! Cycle-stepped core of an 8-bit handheld console: register file,
//! addressing-mode operands, CPU step machines, bus decoding and the PPU.
//!
//! Every call of [`gameboy::GameBoy::emulate_cycle`] is one machine cycle:
//! one step of the instruction in flight, then one PPU step. Multi-cycle
//! progress lives in the CPU's instruction context, so it survives from one
//! call to the next. Each step is specified by a spec function over the
//! processor state and a view of the bus (`cpu::decode::decode_spec`,
//! `ppu::PpuView::step_spec`), and the properties that relate several steps
//! are proved in `cpu::laws` and `ppu`.

pub mod registers;
pub mod operand;
pub mod interrupts;
pub mod mem;
pub mod ppu;
pub mod peripherals;
pub mod cpu;
pub mod cartridge;
pub mod gameboy;
