use gb_emu::cartridge::{compute_header_checksum, CartridgeHeader};
use gb_emu::gameboy::{cycles_due, M_CYCLE_NANOS};

fn header(rom_size: u8, sram_size: u8) -> Vec<u8> {
    let mut h = vec![0u8; 0x50];
    h[0x34..0x3F].copy_from_slice(b"HELLO WORLD");
    h[0x47] = 0x03;
    h[0x48] = rom_size;
    h[0x49] = sram_size;
    h[0x4E] = 0xAB;
    h[0x4F] = 0xCD;
    let sum = compute_header_checksum(&h);
    h[0x4D] = sum;
    h
}

#[test]
fn header_checksum_value() {
    let h = vec![0u8; 0x50];
    // 25 bytes of zero: 0 - 25 = 0xE7
    assert_eq!(compute_header_checksum(&h), 0xE7);
    let mut h2 = h.clone();
    h2[0x34] = 0x01;
    assert_eq!(compute_header_checksum(&h2), 0xE6);
}

#[test]
fn header_fields_and_sizes() {
    let h = header(2, 3);
    let hdr = CartridgeHeader::new(&h);
    assert_eq!(hdr.title, b"HELLO WORLD".to_vec());
    assert_eq!(hdr.cartridge_type, 0x03);
    assert_eq!(hdr.global_checksum, 0xABCD);
    assert_eq!(hdr.rom_size(), 0x20000);
    assert_eq!(hdr.sram_size(), 0x8000);
}

#[test]
fn sram_size_table() {
    let expect = [0usize, 0x800, 0x2000, 0x8000, 0x20000, 0x10000];
    for (code, size) in expect.iter().enumerate() {
        let hdr = CartridgeHeader::new(&header(0, code as u8));
        assert_eq!(hdr.sram_size(), *size);
        assert_eq!(hdr.rom_size(), 0x8000);
    }
}

#[test]
fn cycles_due_counts_whole_cycles() {
    assert_eq!(M_CYCLE_NANOS, 953);
    assert_eq!(cycles_due(953 * 10 + 5, 0), 10);
    assert_eq!(cycles_due(2000, 1500), 0);
    assert_eq!(cycles_due(100, 200), 0);
}
