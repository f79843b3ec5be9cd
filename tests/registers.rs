use gb_emu::operand::{Reg16, Reg8};
use gb_emu::registers::{Registers, FLAG_C, FLAG_H, FLAG_N, FLAG_Z};

#[test]
fn pairs_are_big_endian() {
    let mut r = Registers::new();
    r.write_bc(0x1234);
    r.write_de(0x5678);
    r.write_hl(0x9ABC);
    assert_eq!((r.b, r.c), (0x12, 0x34));
    assert_eq!((r.d, r.e), (0x56, 0x78));
    assert_eq!((r.h, r.l), (0x9A, 0xBC));
    assert_eq!(r.bc(), 0x1234);
    assert_eq!(r.de(), 0x5678);
    assert_eq!(r.hl(), 0x9ABC);
}

#[test]
fn af_write_masks_low_nibble() {
    let mut r = Registers::new();
    r.write_af(0x12FF);
    assert_eq!(r.a, 0x12);
    assert_eq!(r.f, 0xF0);
    assert_eq!(r.af(), 0x12F0);
    r.write8(Reg8::F, 0x3C);
    assert_eq!(r.f, 0x30);
}

#[test]
fn flag_accessors_touch_one_bit() {
    let mut r = Registers::new();
    r.set_zf(true);
    r.set_cf(true);
    assert!(r.zf() && r.cf() && !r.nf() && !r.hf());
    assert_eq!(r.f, FLAG_Z | FLAG_C);
    r.set_nf(true);
    r.set_hf(true);
    r.set_zf(false);
    assert_eq!(r.f, FLAG_N | FLAG_H | FLAG_C);
    r.set_cf(false);
    assert_eq!(r.f, FLAG_N | FLAG_H);
}

#[test]
fn selector_access() {
    let mut r = Registers::new();
    r.write16(Reg16::SP, 0xFFFE);
    r.write16(Reg16::HL, 0xC001);
    r.write8(Reg8::A, 0x42);
    assert_eq!(r.read16(Reg16::SP), 0xFFFE);
    assert_eq!(r.read8(Reg8::H), 0xC0);
    assert_eq!(r.read8(Reg8::L), 0x01);
    assert_eq!(r.read16(Reg16::AF), 0x4200);
}
