use vstd::prelude::*;

verus! {

pub const VBLANK: u8 = 1;

pub const STAT: u8 = 2;

pub const TIMER: u8 = 4;

pub const SERIAL: u8 = 8;

pub const JOYPAD: u8 = 16;

/// Address of the interrupt-flag register.
pub const IF_ADDR: u16 = 0xFF0F;

/// Address of the interrupt-enable register.
pub const IE_ADDR: u16 = 0xFFFF;

/// The interrupt master enable and the two interrupt registers.
#[derive(Clone, Copy, Debug, PartialEq, Eq, Structural)]
pub struct Interrupts {
    pub ime: bool,
    pub int_flags: u8,
    pub int_enable: u8,
}

pub open spec fn is_interrupt_addr(addr: u16) -> bool {
    addr == IF_ADDR || addr == IE_ADDR
}

impl Interrupts {
    pub open spec fn read_spec(self, addr: u16) -> u8 {
        if addr == IF_ADDR {
            self.int_flags
        } else {
            self.int_enable
        }
    }

    pub open spec fn write_spec(self, addr: u16, val: u8) -> Interrupts {
        if addr == IF_ADDR {
            Interrupts { int_flags: val, ..self }
        } else {
            Interrupts { int_enable: val, ..self }
        }
    }

    /// The sources that are both requested and enabled.
    pub open spec fn pending_spec(self) -> u8 {
        self.int_flags & self.int_enable & 0x1F
    }

    pub fn new() -> (r: Interrupts)
        ensures
            r == (Interrupts { ime: false, int_flags: 0, int_enable: 0 }),
    {
        Interrupts { ime: false, int_flags: 0, int_enable: 0 }
    }

    /// Requests the interrupts whose bits are set in `val`.
    pub fn irq(&mut self, val: u8)
        ensures
            *final(self) == (Interrupts { int_flags: old(self).int_flags | val, ..*old(self) }),
    {
        self.int_flags = self.int_flags | val;
    }

    pub fn read(&self, addr: u16) -> (r: u8)
        requires
            is_interrupt_addr(addr),
        ensures
            r == self.read_spec(addr),
    {
        if addr == IF_ADDR {
            self.int_flags
        } else {
            self.int_enable
        }
    }

    pub fn write(&mut self, addr: u16, val: u8)
        requires
            is_interrupt_addr(addr),
        ensures
            *final(self) == old(self).write_spec(addr, val),
    {
        if addr == IF_ADDR {
            self.int_flags = val;
        } else {
            self.int_enable = val;
        }
    }

    pub fn get_interrupts(&self) -> (r: u8)
        ensures
            r == self.pending_spec(),
    {
        self.int_flags & self.int_enable & 0x1F
    }
}

} // verus!
