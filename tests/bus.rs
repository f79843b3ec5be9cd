use gb_emu::interrupts::{Interrupts, JOYPAD, TIMER, VBLANK};
use gb_emu::mem::{Bootrom, Cartridge, Ram};
use gb_emu::peripherals::Peripherals;

fn bus() -> Peripherals {
    let mut rom = vec![0u8; 0x8000];
    rom[0x0000] = 0xC3;
    rom[0x0150] = 0x11;
    Peripherals::new(Bootrom::new(vec![0x31; 0x100]), Cartridge::new(rom, 0x2000))
}

#[test]
fn boot_overlay_until_disabled() {
    let mut b = bus();
    assert_eq!(b.read(0x0000), 0x31);
    assert_eq!(b.read(0x0150), 0x11);
    b.write(0xFF50, 0x00);
    assert_eq!(b.read(0x0000), 0x31);
    b.write(0xFF50, 0x01);
    assert_eq!(b.read(0x0000), 0xC3);
    b.write(0xFF50, 0x00);
    assert_eq!(b.read(0x0000), 0xC3);
}

#[test]
fn unmapped_reads_open_bus_and_writes_dropped() {
    let mut b = bus();
    for addr in [0xFEA0u16, 0xFEFF, 0xFF00, 0xFF4C, 0xFF7F, 0xFF46] {
        b.write(addr, 0x12);
        assert_eq!(b.read(addr), 0xFF);
    }
}

#[test]
fn rom_is_read_only_and_cartridge_ram_is_not() {
    let mut b = bus();
    b.write(0x0150, 0x99);
    assert_eq!(b.read(0x0150), 0x11);
    b.write(0xA000, 0x55);
    assert_eq!(b.read(0xA000), 0x55);
    assert_eq!(b.read(0xBFFF), 0x00);
    assert_eq!(b.cartridge.sram()[0], 0x55);
}

#[test]
fn cartridge_ram_past_its_end_is_open_bus() {
    let mut b = Peripherals::new(Bootrom::new(Vec::new()), Cartridge::new(Vec::new(), 0));
    b.write(0xA000, 0x55);
    assert_eq!(b.read(0xA000), 0xFF);
    assert_eq!(b.read(0x0000), 0xFF);
    assert_eq!(b.read(0x4000), 0xFF);
}

#[test]
fn working_ram_and_its_echo() {
    let mut b = bus();
    b.write(0xC010, 0xAB);
    assert_eq!(b.read(0xC010), 0xAB);
    assert_eq!(b.read(0xE010), 0xAB);
    b.write(0xFDFF, 0xCD);
    assert_eq!(b.read(0xDDFF), 0xCD);
}

#[test]
fn high_ram_and_timer_registers() {
    let mut b = bus();
    b.write(0xFF80, 1);
    b.write(0xFFFE, 2);
    b.write(0xFF05, 3);
    assert_eq!(b.read(0xFF80), 1);
    assert_eq!(b.read(0xFFFE), 2);
    assert_eq!(b.read(0xFF05), 3);
}

#[test]
fn interrupt_registers_through_bus() {
    let mut b = bus();
    b.write(0xFFFF, 0x1F);
    b.write(0xFF0F, 0x05);
    assert_eq!(b.read(0xFFFF), 0x1F);
    assert_eq!(b.read(0xFF0F), 0x05);
    assert_eq!(b.interrupts.get_interrupts(), 0x05);
}

#[test]
fn ppu_registers_through_bus() {
    let mut b = bus();
    b.write(0xFF42, 7);
    assert_eq!(b.read(0xFF42), 7);
    b.write(0x8000, 9);
    assert_eq!(b.read(0x8000), 9);
    assert_eq!(b.read(0xFF41) & 3, 2);
}

#[test]
fn pending_interrupts_mask() {
    let mut i = Interrupts::new();
    i.irq(VBLANK);
    i.irq(TIMER);
    i.write(0xFFFF, VBLANK | JOYPAD | 0xE0);
    assert_eq!(i.read(0xFF0F), VBLANK | TIMER);
    assert_eq!(i.get_interrupts(), VBLANK);
    i.write(0xFF0F, 0xFF);
    assert_eq!(i.get_interrupts(), VBLANK | JOYPAD);
}

#[test]
fn ram_wraps_modulo_size() {
    let mut r = Ram::new(4);
    r.write(5, 9);
    assert_eq!(r.read(1), 9);
}

#[test]
fn bootrom_reads_past_end_open_bus() {
    let mut boot = Bootrom::new(vec![1, 2]);
    assert_eq!(boot.read(1), 2);
    assert_eq!(boot.read(2), 0xFF);
    assert!(boot.is_active());
    boot.write(3);
    assert!(!boot.is_active());
}
