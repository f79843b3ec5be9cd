use vstd::prelude::*;

use crate::mem::zeroed;

verus! {

/// The four modes of the scanline state machine.
#[derive(Clone, Copy, Debug, PartialEq, Eq, Structural)]
pub enum Mode {
    HBlank,
    VBlank,
    OamScan,
    Drawing,
}

pub const LCD_WIDTH: usize = 160;

pub const LCD_HEIGHT: usize = 144;

pub const LCD_PIXELS: usize = LCD_WIDTH * LCD_HEIGHT;

pub const VRAM_SIZE: usize = 0x2000;

pub const OAM_SIZE: usize = 0xA0;

pub const PPU_ENABLE: u8 = 0x80;

pub const WINDOW_TILE_MAP: u8 = 0x40;

pub const WINDOW_ENABLE: u8 = 0x20;

pub const TILE_DATA_ADDRESSING_MODE: u8 = 0x10;

pub const BG_TILE_MAP: u8 = 0x08;

pub const SPRITE_SIZE: u8 = 0x04;

pub const SPRITE_ENABLE: u8 = 0x02;

pub const BG_WINDOW_ENABLE: u8 = 0x01;

/// The LYC == LY bit of STAT.
pub const LYC_EQ_LY: u8 = 0x04;

/// Sub-cycle budgets of the modes; VBlank's is per line.
pub const OAM_SCAN_CYCLES: u8 = 20;

pub const DRAWING_CYCLES: u8 = 43;

pub const HBLANK_CYCLES: u8 = 51;

pub const VBLANK_LINE_CYCLES: u8 = 114;

/// The value of a mode in STAT's low two bits.
pub open spec fn mode_bits(m: Mode) -> u8 {
    match m {
        Mode::HBlank => 0,
        Mode::VBlank => 1,
        Mode::OamScan => 2,
        Mode::Drawing => 3,
    }
}

pub fn mode_value(m: Mode) -> (r: u8)
    ensures
        r == mode_bits(m),
{
    match m {
        Mode::HBlank => 0,
        Mode::VBlank => 1,
        Mode::OamScan => 2,
        Mode::Drawing => 3,
    }
}

pub open spec fn is_vram_addr(addr: u16) -> bool {
    0x8000 <= addr <= 0x9FFF
}

pub open spec fn is_oam_addr(addr: u16) -> bool {
    0xFE00 <= addr <= 0xFE9F
}

/// The addresses that the bus hands to the PPU.
pub open spec fn is_ppu_addr(addr: u16) -> bool {
    is_vram_addr(addr) || is_oam_addr(addr) || 0xFF40 <= addr <= 0xFF4B
}

/// The 8-bit grayscale value of a 2-bit shade.
pub open spec fn shade_value(shade: u8) -> u8 {
    if shade == 0 {
        0xFF
    } else if shade == 1 {
        0xAA
    } else if shade == 2 {
        0x55
    } else {
        0x00
    }
}

/// Maps a 2-bit color index through a palette register to a grayscale value.
pub open spec fn palette_value(palette: u8, color: u8) -> u8 {
    shade_value((palette >> ((color * 2) as u8)) & 3)
}

fn palette_lookup(palette: u8, color: u8) -> (r: u8)
    requires
        color < 4,
    ensures
        r == palette_value(palette, color),
{
    let shade = (palette >> (color * 2)) & 3;
    if shade == 0 {
        0xFF
    } else if shade == 1 {
        0xAA
    } else if shade == 2 {
        0x55
    } else {
        0x00
    }
}

/// STAT with the LYC == LY bit set to whether `ly == lyc`.
pub open spec fn stat_with_lyc(stat: u8, ly: u8, lyc: u8) -> u8 {
    if ly == lyc {
        stat | LYC_EQ_LY
    } else {
        stat & !LYC_EQ_LY
    }
}

/// The 2-bit color index of pixel (`row`, `col`) of tile `tile` in `vram`.
/// Tile data are two bitplanes per row, the low plane first; column 0 is the
/// most significant bit.
pub open spec fn tile_pixel(vram: Seq<u8>, tile: int, row: int, col: int) -> u8 {
    let base = (tile % 512) * 16 + row * 2;
    let lo = vram[base];
    let hi = vram[base + 1];
    let shift = (7 - col) as u8;
    (((hi >> shift) & 1) << 1u8) | ((lo >> shift) & 1)
}

/// What the PPU state is, with its memories as sequences.
#[verifier::ext_equal]
pub struct PpuView {
    pub mode: Mode,
    pub lcdc: u8,
    pub stat: u8,
    pub scy: u8,
    pub scx: u8,
    pub ly: u8,
    pub lyc: u8,
    pub bgp: u8,
    pub obp0: u8,
    pub obp1: u8,
    pub wy: u8,
    pub wx: u8,
    pub vram: Seq<u8>,
    pub oam: Seq<u8>,
    pub buffer: Seq<u8>,
    pub cycles: u8,
}

impl PpuView {
    /// Memory sizes, STAT's low bits left to the mode, and scanline and mode
    /// in step: lines 144 to 153 are VBlank, the others are not.
    pub open spec fn wf(self) -> bool {
        &&& self.vram.len() == VRAM_SIZE
        &&& self.oam.len() == OAM_SIZE
        &&& self.buffer.len() == LCD_PIXELS
        &&& self.stat & 3 == 0
        &&& self.ly <= 153
        &&& (self.mode == Mode::VBlank) == (self.ly >= 144)
        &&& self.cycles >= 1
    }

    pub open spec fn read_spec(self, addr: u16) -> u8 {
        if is_vram_addr(addr) {
            if self.mode == Mode::Drawing {
                0xFF
            } else {
                self.vram[addr - 0x8000]
            }
        } else if is_oam_addr(addr) {
            if self.mode == Mode::Drawing || self.mode == Mode::OamScan {
                0xFF
            } else {
                self.oam[addr - 0xFE00]
            }
        } else if addr == 0xFF40 {
            self.lcdc
        } else if addr == 0xFF41 {
            0x80 | self.stat | mode_bits(self.mode)
        } else if addr == 0xFF42 {
            self.scy
        } else if addr == 0xFF43 {
            self.scx
        } else if addr == 0xFF44 {
            self.ly
        } else if addr == 0xFF45 {
            self.lyc
        } else if addr == 0xFF47 {
            self.bgp
        } else if addr == 0xFF48 {
            self.obp0
        } else if addr == 0xFF49 {
            self.obp1
        } else if addr == 0xFF4A {
            self.wy
        } else if addr == 0xFF4B {
            self.wx
        } else {
            0xFF
        }
    }

    pub open spec fn write_spec(self, addr: u16, val: u8) -> PpuView {
        if is_vram_addr(addr) {
            if self.mode == Mode::Drawing {
                self
            } else {
                PpuView { vram: self.vram.update(addr - 0x8000, val), ..self }
            }
        } else if is_oam_addr(addr) {
            if self.mode == Mode::Drawing || self.mode == Mode::OamScan {
                self
            } else {
                PpuView { oam: self.oam.update(addr - 0xFE00, val), ..self }
            }
        } else if addr == 0xFF40 {
            PpuView { lcdc: val, ..self }
        } else if addr == 0xFF41 {
            PpuView { stat: (self.stat & LYC_EQ_LY) | (val & 0xF8), ..self }
        } else if addr == 0xFF42 {
            PpuView { scy: val, ..self }
        } else if addr == 0xFF43 {
            PpuView { scx: val, ..self }
        } else if addr == 0xFF45 {
            PpuView { lyc: val, ..self }
        } else if addr == 0xFF47 {
            PpuView { bgp: val, ..self }
        } else if addr == 0xFF48 {
            PpuView { obp0: val, ..self }
        } else if addr == 0xFF49 {
            PpuView { obp1: val, ..self }
        } else if addr == 0xFF4A {
            PpuView { wy: val, ..self }
        } else if addr == 0xFF4B {
            PpuView { wx: val, ..self }
        } else {
            self
        }
    }

    /// The tile number stored at (`row`, `col`) of the selected tile map.
    /// With the addressing-mode bit of LCDC clear the stored byte is a
    /// signed offset from tile 0x100.
    pub open spec fn tile_index(self, high_map: bool, row: int, col: int) -> int {
        let start: int = if high_map {
            0x1C00
        } else {
            0x1800
        };
        let raw = self.vram[start + (row * 32 + col) % 0x400];
        if self.lcdc & TILE_DATA_ADDRESSING_MODE != 0 {
            raw as int
        } else if raw < 0x80 {
            0x100 + raw as int
        } else {
            0x100 + raw as int - 0x100
        }
    }

    /// The grayscale value of background column `i` on the current line.
    pub open spec fn bg_pixel(self, i: int) -> u8 {
        let y = (self.ly + self.scy) % 256;
        let x = (i + self.scx) % 256;
        let tile = self.tile_index(self.lcdc & BG_TILE_MAP != 0, y / 8, x / 8);
        palette_value(self.bgp, tile_pixel(self.vram, tile, y % 8, x % 8))
    }

    /// The frame buffer once the background of the current line is drawn
    /// (unchanged while the background is disabled).
    pub open spec fn rendered(self) -> Seq<u8> {
        if self.lcdc & BG_WINDOW_ENABLE == 0 {
            self.buffer
        } else {
            let base = LCD_WIDTH * self.ly;
            Seq::new(
                self.buffer.len(),
                |j: int|
                    if base <= j < base + LCD_WIDTH {
                        self.bg_pixel(j - base)
                    } else {
                        self.buffer[j]
                    },
            )
        }
    }

    /// One call of the PPU driver: the next state, and whether a frame was
    /// completed (the wrap from the last VBlank line to line 0).
    pub open spec fn step_spec(self) -> (PpuView, bool) {
        if self.lcdc & PPU_ENABLE == 0 {
            (self, false)
        } else if self.cycles > 1 {
            (PpuView { cycles: (self.cycles - 1) as u8, ..self }, false)
        } else {
            match self.mode {
                Mode::HBlank => {
                    let ly = (self.ly + 1) as u8;
                    let stat = stat_with_lyc(self.stat, ly, self.lyc);
                    if ly < 144 {
                        (PpuView { mode: Mode::OamScan, cycles: OAM_SCAN_CYCLES, ly, stat, ..self }, false)
                    } else {
                        (PpuView { mode: Mode::VBlank, cycles: VBLANK_LINE_CYCLES, ly, stat, ..self }, false)
                    }
                },
                Mode::VBlank => {
                    if self.ly + 1 > 153 {
                        let stat = stat_with_lyc(self.stat, 0, self.lyc);
                        (PpuView { mode: Mode::OamScan, cycles: OAM_SCAN_CYCLES, ly: 0, stat, ..self }, true)
                    } else {
                        let ly = (self.ly + 1) as u8;
                        let stat = stat_with_lyc(self.stat, ly, self.lyc);
                        (PpuView { cycles: VBLANK_LINE_CYCLES, ly, stat, ..self }, false)
                    }
                },
                Mode::OamScan => (PpuView { mode: Mode::Drawing, cycles: DRAWING_CYCLES, ..self }, false),
                Mode::Drawing => (
                    PpuView { mode: Mode::HBlank, cycles: HBLANK_CYCLES, buffer: self.rendered(), ..self },
                    false,
                ),
            }
        }
    }
}

pub proof fn lemma_stat_low_bits(stat: u8, val: u8, m: u8)
    requires
        m <= 3,
    ensures
        ((stat & LYC_EQ_LY) | (val & 0xF8)) & 3 == 0,
        stat & 3 == 0 ==> (stat | LYC_EQ_LY) & 3 == 0,
        stat & 3 == 0 ==> (stat & !LYC_EQ_LY) & 3 == 0,
        stat & 3 == 0 ==> (0x80 | stat | m) & 3 == m,
{
    assert(((stat & 4) | (val & 0xF8)) & 3 == 0) by (bit_vector);
    assert(stat & 3 == 0 ==> (stat | 4) & 3 == 0) by (bit_vector);
    assert(stat & 3 == 0 ==> (stat & !4u8) & 3 == 0) by (bit_vector);
    assert(stat & 3 == 0 && m <= 3 ==> (0x80 | stat | m) & 3 == m) by (bit_vector);
}

/// Writes keep the PPU well formed and never change its mode.
pub proof fn lemma_write_keeps_wf(p: PpuView, addr: u16, val: u8)
    requires
        p.wf(),
    ensures
        p.write_spec(addr, val).wf(),
        p.write_spec(addr, val).mode == p.mode,
{
    lemma_stat_low_bits(p.stat, val, 0);
}

/// STAT read back shows the PPU's mode in its low two bits, whatever was
/// written to it (or anywhere else) before.
pub proof fn lemma_stat_shows_mode(p: PpuView, addr: u16, val: u8)
    requires
        p.wf(),
    ensures
        p.read_spec(0xFF41) & 3 == mode_bits(p.mode),
        p.write_spec(addr, val).read_spec(0xFF41) & 3 == mode_bits(p.mode),
{
    let q = p.write_spec(addr, val);
    lemma_write_keeps_wf(p, addr, val);
    lemma_stat_low_bits(p.stat, val, mode_bits(p.mode));
    lemma_stat_low_bits(q.stat, val, mode_bits(q.mode));
}

/// The state at power-on: every register and memory cleared, OamScan of
/// line 0 with its full budget.
pub open spec fn power_on_view() -> PpuView {
    PpuView {
        mode: Mode::OamScan,
        lcdc: 0,
        stat: 0,
        scy: 0,
        scx: 0,
        ly: 0,
        lyc: 0,
        bgp: 0,
        obp0: 0,
        obp1: 0,
        wy: 0,
        wx: 0,
        vram: Seq::new(VRAM_SIZE as nat, |i: int| 0u8),
        oam: Seq::new(OAM_SIZE as nat, |i: int| 0u8),
        buffer: Seq::new(LCD_PIXELS as nat, |i: int| 0u8),
        cycles: OAM_SCAN_CYCLES,
    }
}

/// The pixel-processing unit: registers, video memory, object attributes and
/// the frame buffer (one grayscale byte per pixel).
pub struct Ppu {
    mode: Mode,
    lcdc: u8,
    stat: u8,
    scy: u8,
    scx: u8,
    ly: u8,
    lyc: u8,
    bgp: u8,
    obp0: u8,
    obp1: u8,
    wy: u8,
    wx: u8,
    vram: Vec<u8>,
    oam: Vec<u8>,
    buffer: Vec<u8>,
    cycles: u8,
}

impl View for Ppu {
    type V = PpuView;

    closed spec fn view(&self) -> PpuView {
        PpuView {
            mode: self.mode,
            lcdc: self.lcdc,
            stat: self.stat,
            scy: self.scy,
            scx: self.scx,
            ly: self.ly,
            lyc: self.lyc,
            bgp: self.bgp,
            obp0: self.obp0,
            obp1: self.obp1,
            wy: self.wy,
            wx: self.wx,
            vram: self.vram@,
            oam: self.oam@,
            buffer: self.buffer@,
            cycles: self.cycles,
        }
    }
}

impl Ppu {
    /// Power-on state: every register and memory cleared, OamScan of line 0
    /// with its full budget.
    pub fn new() -> (r: Ppu)
        ensures
            r@.wf(),
            r@ == power_on_view(),
    {
        let r = Ppu {
            mode: Mode::OamScan,
            lcdc: 0,
            stat: 0,
            scy: 0,
            scx: 0,
            ly: 0,
            lyc: 0,
            bgp: 0,
            obp0: 0,
            obp1: 0,
            wy: 0,
            wx: 0,
            vram: zeroed(VRAM_SIZE),
            oam: zeroed(OAM_SIZE),
            buffer: zeroed(LCD_PIXELS),
            cycles: OAM_SCAN_CYCLES,
        };
        proof {
            assert(0u8 & 3 == 0) by (bit_vector);
        }
        r
    }

    /// The frame buffer, row after row, one grayscale byte per pixel.
    pub fn buffer(&self) -> (r: &Vec<u8>)
        ensures
            r@ == self@.buffer,
    {
        &self.buffer
    }

    pub fn read(&self, addr: u16) -> (r: u8)
        requires
            self@.wf(),
            is_ppu_addr(addr),
        ensures
            r == self@.read_spec(addr),
    {
        if 0x8000 <= addr && addr <= 0x9FFF {
            if self.mode == Mode::Drawing {
                0xFF
            } else {
                self.vram[(addr - 0x8000) as usize]
            }
        } else if 0xFE00 <= addr && addr <= 0xFE9F {
            if self.mode == Mode::Drawing || self.mode == Mode::OamScan {
                0xFF
            } else {
                self.oam[(addr - 0xFE00) as usize]
            }
        } else if addr == 0xFF40 {
            self.lcdc
        } else if addr == 0xFF41 {
            0x80 | self.stat | mode_value(self.mode)
        } else if addr == 0xFF42 {
            self.scy
        } else if addr == 0xFF43 {
            self.scx
        } else if addr == 0xFF44 {
            self.ly
        } else if addr == 0xFF45 {
            self.lyc
        } else if addr == 0xFF47 {
            self.bgp
        } else if addr == 0xFF48 {
            self.obp0
        } else if addr == 0xFF49 {
            self.obp1
        } else if addr == 0xFF4A {
            self.wy
        } else if addr == 0xFF4B {
            self.wx
        } else {
            0xFF
        }
    }

    pub fn write(&mut self, addr: u16, val: u8)
        requires
            old(self)@.wf(),
            is_ppu_addr(addr),
        ensures
            final(self)@ == old(self)@.write_spec(addr, val),
            final(self)@.wf(),
    {
        proof {
            lemma_stat_low_bits(self.stat, val, 0);
        }
        if 0x8000 <= addr && addr <= 0x9FFF {
            if self.mode != Mode::Drawing {
                self.vram.set((addr - 0x8000) as usize, val);
            }
        } else if 0xFE00 <= addr && addr <= 0xFE9F {
            if self.mode != Mode::Drawing && self.mode != Mode::OamScan {
                self.oam.set((addr - 0xFE00) as usize, val);
            }
        } else if addr == 0xFF40 {
            self.lcdc = val;
        } else if addr == 0xFF41 {
            self.stat = (self.stat & LYC_EQ_LY) | (val & 0xF8);
        } else if addr == 0xFF42 {
            self.scy = val;
        } else if addr == 0xFF43 {
            self.scx = val;
        } else if addr == 0xFF45 {
            self.lyc = val;
        } else if addr == 0xFF47 {
            self.bgp = val;
        } else if addr == 0xFF48 {
            self.obp0 = val;
        } else if addr == 0xFF49 {
            self.obp1 = val;
        } else if addr == 0xFF4A {
            self.wy = val;
        } else if addr == 0xFF4B {
            self.wx = val;
        }
    }

    /// The 2-bit color index of pixel (`row`, `col`) of tile `tile_idx`.
    pub fn get_pixel_from_tile(&self, tile_idx: usize, row: u8, col: u8) -> (r: u8)
        requires
            self@.wf(),
            row < 8,
            col < 8,
        ensures
            r == tile_pixel(self@.vram, tile_idx as int, row as int, col as int),
            r < 4,
    {
        let base: usize = (tile_idx % 512) * 16 + (row as usize) * 2;
        let lo = self.vram[base];
        let hi = self.vram[base + 1];
        let shift: u8 = 7 - col;
        let r = (((hi >> shift) & 1) << 1u8) | ((lo >> shift) & 1);
        proof {
            assert((((hi >> shift) & 1) << 1u8) | ((lo >> shift) & 1) < 4) by (bit_vector);
        }
        r
    }

    /// The tile number at (`row`, `col`) of the tile map selected by
    /// `tile_map`, in the addressing mode that LCDC selects.
    pub fn get_tile_idx_from_tile_map(&self, tile_map: bool, row: u8, col: u8) -> (r: usize)
        requires
            self@.wf(),
        ensures
            r as int == self@.tile_index(tile_map, row as int, col as int),
            r < 0x180,
    {
        let start: usize = if tile_map {
            0x1C00
        } else {
            0x1800
        };
        let raw = self.vram[start + ((row as usize) * 32 + col as usize) % 0x400];
        if self.lcdc & TILE_DATA_ADDRESSING_MODE != 0 {
            raw as usize
        } else if raw < 0x80 {
            0x100 + raw as usize
        } else {
            raw as usize
        }
    }

    /// The grayscale value of background column `i` of the current line.
    fn bg_pixel(&self, i: usize) -> (r: u8)
        requires
            self@.wf(),
            i < LCD_WIDTH,
        ensures
            r == self@.bg_pixel(i as int),
    {
        let y: u8 = self.ly.wrapping_add(self.scy);
        let x: u8 = (i as u8).wrapping_add(self.scx);
        assert(y == (self@.ly + self@.scy) % 256);
        assert(x == (i + self@.scx) % 256);
        let tile_idx = self.get_tile_idx_from_tile_map(self.lcdc & BG_TILE_MAP != 0, y / 8, x / 8);
        let pixel = self.get_pixel_from_tile(tile_idx, y % 8, x % 8);
        palette_lookup(self.bgp, pixel)
    }

    /// Draws the background of the current line into the frame buffer.
    fn render_bg(&mut self)
        requires
            old(self)@.wf(),
            old(self)@.ly < LCD_HEIGHT,
        ensures
            final(self)@ == (PpuView { buffer: old(self)@.rendered(), ..old(self)@ }),
    {
        if self.lcdc & BG_WINDOW_ENABLE == 0 {
            return;
        }
        let base: usize = LCD_WIDTH * (self.ly as usize);
        let ghost v0 = self@;
        let mut i: usize = 0;
        while i < LCD_WIDTH
            invariant
                i <= LCD_WIDTH,
                base == LCD_WIDTH * v0.ly,
                v0.wf(),
                v0.ly < LCD_HEIGHT,
                self@ == (PpuView { buffer: self@.buffer, ..v0 }),
                self@.buffer.len() == LCD_PIXELS,
                forall|j: int|
                    0 <= j < LCD_PIXELS ==> #[trigger] self@.buffer[j] == if base <= j < base + i {
                        v0.bg_pixel(j - base)
                    } else {
                        v0.buffer[j]
                    },
            decreases LCD_WIDTH - i,
        {
            let p = self.bg_pixel(i);
            self.buffer.set(base + i, p);
            i = i + 1;
        }
        assert(self@.buffer =~= v0.rendered());
    }

    /// Recomputes the LYC == LY bit of STAT.
    fn check_lyc_eq_ly(&mut self)
        requires
            old(self)@.wf(),
        ensures
            final(self)@ == (PpuView {
                stat: stat_with_lyc(old(self)@.stat, old(self)@.ly, old(self)@.lyc),
                ..old(self)@
            }),
    {
        if self.ly == self.lyc {
            self.stat = self.stat | LYC_EQ_LY;
        } else {
            self.stat = self.stat & !LYC_EQ_LY;
        }
    }

    /// Advances the PPU by one sub-cycle; true when a frame has just been
    /// completed.
    pub fn emulate_cycle(&mut self) -> (r: bool)
        requires
            old(self)@.wf(),
        ensures
            (final(self)@, r) == old(self)@.step_spec(),
            final(self)@.wf(),
    {
        proof {
            lemma_stat_low_bits(self.stat, 0, 0);
        }
        if self.lcdc & PPU_ENABLE == 0 {
            return false;
        }
        self.cycles = self.cycles - 1;
        if self.cycles > 0 {
            return false;
        }
        let mut ret = false;
        match self.mode {
            Mode::HBlank => {
                self.ly = self.ly + 1;
                if self.ly < 144 {
                    self.mode = Mode::OamScan;
                    self.cycles = OAM_SCAN_CYCLES;
                } else {
                    self.mode = Mode::VBlank;
                    self.cycles = VBLANK_LINE_CYCLES;
                }
                self.check_lyc_eq_ly();
            },
            Mode::VBlank => {
                self.ly = self.ly + 1;
                if self.ly > 153 {
                    ret = true;
                    self.ly = 0;
                    self.mode = Mode::OamScan;
                    self.cycles = OAM_SCAN_CYCLES;
                } else {
                    self.cycles = VBLANK_LINE_CYCLES;
                }
                self.check_lyc_eq_ly();
            },
            Mode::OamScan => {
                self.mode = Mode::Drawing;
                self.cycles = DRAWING_CYCLES;
            },
            Mode::Drawing => {
                let ghost v0 = self@;
                self.cycles = HBLANK_CYCLES;
                assert(self@.rendered() =~= v0.rendered());
                self.render_bg();
                self.mode = Mode::HBlank;
            },
        }
        assert(self@ =~= old(self)@.step_spec().0);
        ret
    }
}

} // verus!
