use vstd::prelude::*;

verus! {

/// A buffer of `n` zero bytes.
pub fn zeroed(n: usize) -> (v: Vec<u8>)
    ensures
        v@ == Seq::new(n as nat, |i: int| 0u8),
{
    let mut v: Vec<u8> = Vec::new();
    let mut i: usize = 0;
    while i < n
        invariant
            i <= n,
            v@ == Seq::new(i as nat, |k: int| 0u8),
        decreases n - i,
    {
        v.push(0u8);
        i = i + 1;
        assert(v@ =~= Seq::new(i as nat, |k: int| 0u8));
    }
    v
}


/// The byte at `i` of `s`, or the open-bus value past its end.
pub open spec fn byte_or_open(s: Seq<u8>, i: int) -> u8 {
    if 0 <= i < s.len() {
        s[i]
    } else {
        0xFF
    }
}

/// A block of plain RAM; an address selects the byte at its offset modulo
/// the block's size, so mirrored ranges fall on the same bytes.
pub struct Ram {
    data: Vec<u8>,
}

impl View for Ram {
    type V = Seq<u8>;

    closed spec fn view(&self) -> Seq<u8> {
        self.data@
    }
}

impl Ram {
    pub fn new(size: usize) -> (r: Ram)
        ensures
            r@ == Seq::new(size as nat, |i: int| 0u8),
    {
        Ram { data: zeroed(size) }
    }

    pub fn read(&self, addr: u16) -> (r: u8)
        requires
            self@.len() > 0,
        ensures
            r == self@[addr as int % self@.len() as int],
    {
        self.data[(addr as usize) % self.data.len()]
    }

    pub fn write(&mut self, addr: u16, val: u8)
        requires
            old(self)@.len() > 0,
        ensures
            final(self)@ == old(self)@.update(addr as int % old(self)@.len() as int, val),
    {
        let i = (addr as usize) % self.data.len();
        self.data.set(i, val);
    }
}

/// The boot program, overlaid on the lowest 256 addresses until it is
/// switched off.
pub struct Bootrom {
    data: Vec<u8>,
    active: bool,
}

impl View for Bootrom {
    type V = (Seq<u8>, bool);

    closed spec fn view(&self) -> (Seq<u8>, bool) {
        (self.data@, self.active)
    }
}

impl Bootrom {
    /// An active overlay holding `data`.
    pub fn new(data: Vec<u8>) -> (r: Bootrom)
        ensures
            r@ == (data@, true),
    {
        Bootrom { data, active: true }
    }

    pub fn is_active(&self) -> (r: bool)
        ensures
            r == self@.1,
    {
        self.active
    }

    pub fn read(&self, addr: u16) -> (r: u8)
        ensures
            r == byte_or_open(self@.0, addr as int),
    {
        if (addr as usize) < self.data.len() {
            self.data[addr as usize]
        } else {
            0xFF
        }
    }

    /// A write of a non-zero value switches the overlay off for good.
    pub fn write(&mut self, val: u8)
        ensures
            final(self)@ == (old(self)@.0, old(self)@.1 && val == 0),
    {
        self.active = self.active && val == 0;
    }
}

pub open spec fn is_sram_addr(addr: u16) -> bool {
    0xA000 <= addr <= 0xBFFF
}

/// What the cartridge answers at `addr`: its ROM below 0x8000, its RAM at
/// 0xA000..=0xBFFF, the open-bus value past the end of either.
pub open spec fn cartridge_read(rom: Seq<u8>, sram: Seq<u8>, addr: u16) -> u8 {
    if addr < 0x8000 {
        byte_or_open(rom, addr as int)
    } else if is_sram_addr(addr) {
        byte_or_open(sram, addr - 0xA000)
    } else {
        0xFF
    }
}

/// The cartridge RAM after a write at `addr`; ROM is not writable.
pub open spec fn cartridge_write(sram: Seq<u8>, addr: u16, val: u8) -> Seq<u8> {
    if is_sram_addr(addr) && addr - 0xA000 < sram.len() {
        sram.update(addr - 0xA000, val)
    } else {
        sram
    }
}

/// A cartridge without a memory controller: its ROM image and its RAM.
pub struct Cartridge {
    rom: Vec<u8>,
    sram: Vec<u8>,
}

impl View for Cartridge {
    type V = (Seq<u8>, Seq<u8>);

    closed spec fn view(&self) -> (Seq<u8>, Seq<u8>) {
        (self.rom@, self.sram@)
    }
}

impl Cartridge {
    /// A cartridge holding `rom`, with `sram_size` bytes of cleared RAM.
    pub fn new(rom: Vec<u8>, sram_size: usize) -> (r: Cartridge)
        ensures
            r@ == (rom@, Seq::new(sram_size as nat, |i: int| 0u8)),
    {
        Cartridge { rom, sram: zeroed(sram_size) }
    }

    /// The cartridge RAM, for the caller to persist.
    pub fn sram(&self) -> (r: &Vec<u8>)
        ensures
            r@ == self@.1,
    {
        &self.sram
    }

    pub fn read(&self, addr: u16) -> (r: u8)
        ensures
            r == cartridge_read(self@.0, self@.1, addr),
    {
        if addr < 0x8000 {
            if (addr as usize) < self.rom.len() {
                self.rom[addr as usize]
            } else {
                0xFF
            }
        } else if 0xA000 <= addr && addr <= 0xBFFF {
            let i = (addr - 0xA000) as usize;
            if i < self.sram.len() {
                self.sram[i]
            } else {
                0xFF
            }
        } else {
            0xFF
        }
    }

    pub fn write(&mut self, addr: u16, val: u8)
        ensures
            final(self)@ == (old(self)@.0, cartridge_write(old(self)@.1, addr, val)),
    {
        if 0xA000 <= addr && addr <= 0xBFFF {
            let i = (addr - 0xA000) as usize;
            if i < self.sram.len() {
                self.sram.set(i, val);
            }
        }
    }
}

} // verus!
