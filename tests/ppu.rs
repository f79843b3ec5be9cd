use gb_emu::ppu::{Ppu, LCD_PIXELS};

const STAT: u16 = 0xFF41;
const LY: u16 = 0xFF44;

fn enabled_ppu(lcdc: u8) -> Ppu {
    let mut ppu = Ppu::new();
    ppu.write(0xFF40, lcdc);
    ppu
}

#[test]
fn disabled_ppu_does_nothing() {
    let mut ppu = Ppu::new();
    for _ in 0..1000 {
        assert!(!ppu.emulate_cycle());
    }
    assert_eq!(ppu.read(STAT) & 3, 2);
    assert_eq!(ppu.read(LY), 0);
}

#[test]
fn mode_sequence_of_one_frame() {
    let mut ppu = enabled_ppu(0x91);
    let mut modes: Vec<(u8, u8)> = vec![(ppu.read(STAT) & 3, ppu.read(LY))];
    let mut frames = 0;
    let mut cycles = 0;
    while frames == 0 {
        if ppu.emulate_cycle() {
            frames += 1;
        }
        cycles += 1;
        let m = (ppu.read(STAT) & 3, ppu.read(LY));
        if *modes.last().unwrap() != m {
            modes.push(m);
        }
    }
    assert_eq!(cycles, 154 * 114);
    let mut expected: Vec<(u8, u8)> = Vec::new();
    for line in 0..144u8 {
        expected.push((2, line));
        expected.push((3, line));
        expected.push((0, line));
    }
    for line in 144..=153u8 {
        expected.push((1, line));
    }
    expected.push((2, 0));
    assert_eq!(modes, expected);
    let mut seen = vec![0u32; 154];
    for (m, ly) in &modes[..modes.len() - 1] {
        if *m == 2 || *m == 1 {
            seen[*ly as usize] += 1;
        }
    }
    assert!(seen.iter().all(|n| *n == 1));
}

#[test]
fn blank_frame_is_white() {
    let mut ppu = enabled_ppu(0x91);
    ppu.write(0xFF47, 0xFC);
    let mut done = false;
    while !done {
        done = ppu.emulate_cycle();
    }
    assert_eq!(ppu.buffer().len(), LCD_PIXELS);
    assert!(ppu.buffer().iter().all(|p| *p == 0xFF));
}

#[test]
fn stat_low_bits_follow_mode_after_writes() {
    let mut ppu = enabled_ppu(0x91);
    for v in 0..=255u8 {
        ppu.write(STAT, v);
        assert_eq!(ppu.read(STAT) & 3, 2);
        assert_eq!(ppu.read(STAT) & 0xF8, 0x80 | (v & 0xF8));
    }
    for _ in 0..20 {
        ppu.emulate_cycle();
    }
    ppu.write(STAT, 0xFF);
    assert_eq!(ppu.read(STAT) & 3, 3);
}

#[test]
fn lyc_bit_tracks_ly_and_survives_stat_writes() {
    let mut ppu = enabled_ppu(0x91);
    ppu.write(0xFF45, 1);
    for _ in 0..114 {
        ppu.emulate_cycle();
    }
    assert_eq!(ppu.read(LY), 1);
    assert_eq!(ppu.read(STAT) & 0x04, 0x04);
    ppu.write(STAT, 0x00);
    assert_eq!(ppu.read(STAT) & 0x04, 0x04);
    for _ in 0..114 {
        ppu.emulate_cycle();
    }
    assert_eq!(ppu.read(STAT) & 0x04, 0);
}

#[test]
fn vram_and_oam_locked_by_mode() {
    let mut ppu = enabled_ppu(0x91);
    // OamScan: VRAM open, OAM locked.
    ppu.write(0x8000, 0x12);
    ppu.write(0xFE00, 0x34);
    assert_eq!(ppu.read(0x8000), 0x12);
    assert_eq!(ppu.read(0xFE00), 0xFF);
    for _ in 0..20 {
        ppu.emulate_cycle();
    }
    // Drawing: both locked.
    assert_eq!(ppu.read(0x8000), 0xFF);
    ppu.write(0x8000, 0x56);
    for _ in 0..43 {
        ppu.emulate_cycle();
    }
    // HBlank: both open; the writes while locked were dropped.
    assert_eq!(ppu.read(0x8000), 0x12);
    assert_eq!(ppu.read(0xFE00), 0x00);
    ppu.write(0xFE00, 0x34);
    assert_eq!(ppu.read(0xFE00), 0x34);
}

#[test]
fn ly_is_read_only() {
    let mut ppu = enabled_ppu(0x91);
    ppu.write(LY, 0x40);
    assert_eq!(ppu.read(LY), 0);
}

#[test]
fn tile_pixel_decoding() {
    let mut ppu = Ppu::new();
    // tile 1, row 2: low plane 0b1010_0000, high plane 0b1100_0000
    ppu.write(0x8000 + 16 + 4, 0xA0);
    ppu.write(0x8000 + 16 + 5, 0xC0);
    assert_eq!(ppu.get_pixel_from_tile(1, 2, 0), 3);
    assert_eq!(ppu.get_pixel_from_tile(1, 2, 1), 2);
    assert_eq!(ppu.get_pixel_from_tile(1, 2, 2), 1);
    assert_eq!(ppu.get_pixel_from_tile(1, 2, 3), 0);
}

#[test]
fn tile_index_addressing_modes() {
    let mut ppu = Ppu::new();
    ppu.write(0x9800, 0x05);
    ppu.write(0x9801, 0x85);
    ppu.write(0x9C00 + 33, 0x07);
    ppu.write(0xFF40, 0x10);
    assert_eq!(ppu.get_tile_idx_from_tile_map(false, 0, 0), 0x05);
    assert_eq!(ppu.get_tile_idx_from_tile_map(false, 0, 1), 0x85);
    assert_eq!(ppu.get_tile_idx_from_tile_map(true, 1, 1), 0x07);
    ppu.write(0xFF40, 0x00);
    assert_eq!(ppu.get_tile_idx_from_tile_map(false, 0, 0), 0x105);
    assert_eq!(ppu.get_tile_idx_from_tile_map(false, 0, 1), 0x85);
}

#[test]
fn rendered_line_uses_palette_and_scroll() {
    let mut ppu = Ppu::new();
    // tile 1: every row all color 3; map entry (0, 1) is tile 1.
    for row in 0..8u16 {
        ppu.write(0x8010 + row * 2, 0xFF);
        ppu.write(0x8010 + row * 2 + 1, 0xFF);
    }
    ppu.write(0x9801, 0x01);
    ppu.write(0xFF47, 0b1110_0100);
    ppu.write(0xFF43, 4);
    ppu.write(0xFF40, 0x91);
    for _ in 0..(20 + 43) {
        ppu.emulate_cycle();
    }
    let line = &ppu.buffer()[0..160];
    assert!(line[0..4].iter().all(|p| *p == 0xFF));
    assert!(line[4..12].iter().all(|p| *p == 0x00));
    assert!(line[12..160].iter().all(|p| *p == 0xFF));
    assert!(ppu.buffer()[160..].iter().all(|p| *p == 0));
}

#[test]
fn background_disabled_leaves_buffer() {
    let mut ppu = enabled_ppu(0x90);
    for _ in 0..(20 + 43) {
        ppu.emulate_cycle();
    }
    assert!(ppu.buffer().iter().all(|p| *p == 0));
}
