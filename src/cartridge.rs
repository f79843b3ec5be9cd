use vstd::prelude::*;

use vstd::arithmetic::power2::{lemma2_to64, lemma_pow2_strictly_increases, lemma_pow2_unfold, pow2};

use crate::registers::wrap8;

verus! {

/// Size of the header, which occupies 0x100..0x150 of the ROM.
pub const HEADER_SIZE: usize = 0x50;

/// Offsets within the header.
pub const TITLE_START: usize = 0x34;

pub const TITLE_END: usize = 0x3F;

pub const CHECKSUM_OFFSET: usize = 0x4D;

/// The header checksum after the bytes from 0x34 up to `end` (exclusive):
/// starting from zero, each byte and one more are subtracted, wrapping.
pub open spec fn checksum_upto(data: Seq<u8>, end: int) -> u8
    decreases end,
{
    if end <= TITLE_START {
        0
    } else {
        wrap8(checksum_upto(data, end - 1) - data[end - 1] - 1)
    }
}

/// The checksum of the bytes 0x34..=0x4C that the header must carry at 0x4D.
pub open spec fn header_checksum(data: Seq<u8>) -> u8 {
    checksum_upto(data, CHECKSUM_OFFSET as int)
}

/// Computes the header checksum of `data`.
pub fn compute_header_checksum(data: &[u8]) -> (r: u8)
    requires
        data@.len() == HEADER_SIZE,
    ensures
        r == header_checksum(data@),
{
    let mut sum: u8 = 0;
    let mut i: usize = TITLE_START;
    while i < CHECKSUM_OFFSET
        invariant
            TITLE_START <= i <= CHECKSUM_OFFSET,
            data@.len() == HEADER_SIZE,
            sum == checksum_upto(data@, i as int),
        decreases CHECKSUM_OFFSET - i,
    {
        sum = sum.wrapping_sub(data[i]).wrapping_sub(1);
        i = i + 1;
    }
    sum
}

/// The fields of a cartridge header that describe the cartridge.
pub struct CartridgeHeader {
    pub title: Vec<u8>,
    pub cgb_flag: u8,
    pub sgb_flag: u8,
    pub cartridge_type: u8,
    pub rom_size: u8,
    pub sram_size: u8,
    pub destination: u8,
    pub old_licensee: u8,
    pub game_version: u8,
    pub header_checksum: u8,
    pub global_checksum: u16,
}

impl CartridgeHeader {
    /// Reads the header from its 0x50 bytes; a header whose checksum does
    /// not match is a defect of the cartridge, not an input.
    pub fn new(data: &[u8]) -> (r: CartridgeHeader)
        requires
            data@.len() == HEADER_SIZE,
            header_checksum(data@) == data@[CHECKSUM_OFFSET as int],
        ensures
            r.title@ == data@.subrange(TITLE_START as int, TITLE_END as int),
            r.cgb_flag == data@[0x43],
            r.sgb_flag == data@[0x46],
            r.cartridge_type == data@[0x47],
            r.rom_size == data@[0x48],
            r.sram_size == data@[0x49],
            r.destination == data@[0x4A],
            r.old_licensee == data@[0x4B],
            r.game_version == data@[0x4C],
            r.header_checksum == data@[0x4D],
            r.global_checksum == data@[0x4E] as int * 256 + data@[0x4F] as int,
    {
        let mut title: Vec<u8> = Vec::new();
        let mut i: usize = TITLE_START;
        while i < TITLE_END
            invariant
                TITLE_START <= i <= TITLE_END,
                data@.len() == HEADER_SIZE,
                title@ == data@.subrange(TITLE_START as int, i as int),
            decreases TITLE_END - i,
        {
            title.push(data[i]);
            i = i + 1;
            assert(title@ =~= data@.subrange(TITLE_START as int, i as int));
        }
        CartridgeHeader {
            title,
            cgb_flag: data[0x43],
            sgb_flag: data[0x46],
            cartridge_type: data[0x47],
            rom_size: data[0x48],
            sram_size: data[0x49],
            destination: data[0x4A],
            old_licensee: data[0x4B],
            game_version: data[0x4C],
            header_checksum: data[0x4D],
            global_checksum: (data[0x4E] as u16) * 256 + data[0x4F] as u16,
        }
    }

    /// ROM size in bytes: 32 KiB doubled `rom_size` times.
    pub fn rom_size(&self) -> (r: usize)
        requires
            self.rom_size <= 16,
        ensures
            r == 0x8000 * pow2(self.rom_size as nat),
    {
        let mut size: usize = 0x8000;
        let mut i: u8 = 0;
        proof {
            lemma2_to64();
        }
        while i < self.rom_size
            invariant
                i <= self.rom_size <= 16,
                size == 0x8000 * pow2(i as nat),
                pow2(17) == 0x20000,
            decreases self.rom_size - i,
        {
            proof {
                lemma_pow2_unfold((i + 1) as nat);
                lemma_pow2_strictly_increases((i + 1) as nat, 17);
            }
            size = size * 2;
            i = i + 1;
        }
        size
    }

    /// Cartridge RAM size in bytes for the codes that exist.
    pub fn sram_size(&self) -> (r: usize)
        requires
            self.sram_size <= 5,
        ensures
            r == sram_bytes(self.sram_size),
    {
        match self.sram_size {
            0x00 => 0,
            0x01 => 0x800,
            0x02 => 0x2000,
            0x03 => 0x8000,
            0x04 => 0x20000,
            _ => 0x10000,
        }
    }
}

/// Cartridge RAM size of a header code: none, 2 KiB, 8 KiB, 32 KiB,
/// 128 KiB, 64 KiB.
pub open spec fn sram_bytes(code: u8) -> int {
    if code == 0 {
        0
    } else if code == 1 {
        0x800
    } else if code == 2 {
        0x2000
    } else if code == 3 {
        0x8000
    } else if code == 4 {
        0x20000
    } else {
        0x10000
    }
}

} // verus!
